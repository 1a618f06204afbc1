//! The weeks that a query is asked for, and how they are written: one week as
//! a number, a range as two numbers with a hyphen between them.

use vstd::prelude::*;
use vstd::string::StringExecFns;

verus! {

broadcast use vstd::string::group_string_axioms;

/// One week, or the weeks from the first number to the second, both included.
#[derive(Clone, Copy, Debug, PartialEq, Eq, Structural)]
pub enum Weeks {
    Week(u16),
    WeekRange(u16, u16),
}

/// Why a text does not name weeks.
#[derive(Clone, Copy, Debug, PartialEq, Eq, Structural)]
pub enum WeeksError {
    /// A part of the text is not a number of 16 bits.
    Number,
    /// The text has more than two parts.
    Parts,
    /// The range starts after its end.
    Order,
}

/// A decimal digit.
pub open spec fn is_digit(c: char) -> bool {
    '0' as u32 <= c as u32 && c as u32 <= '9' as u32
}

/// The number that a text of digits denotes.
pub open spec fn digits_value(d: Seq<char>) -> nat
    decreases d.len(),
{
    if d.len() == 0 {
        0
    } else {
        digits_value(d.drop_last()) * 10 + ((d.last() as u32 - '0' as u32) as nat)
    }
}

/// `part` without the plus sign that may stand before its digits.
pub open spec fn unsigned(part: Seq<char>) -> Seq<char> {
    if part.len() > 0 && part[0] == '+' {
        part.skip(1)
    } else {
        part
    }
}

/// `d` is made of digits only.
pub open spec fn all_digits(d: Seq<char>) -> bool {
    forall|i: int| 0 <= i < d.len() ==> is_digit(#[trigger] d[i])
}

/// The number that `part` denotes: at least one digit, after at most one plus
/// sign, and no more than 16 bits hold.
pub open spec fn number(part: Seq<char>) -> Option<u16> {
    let d = unsigned(part);
    if d.len() > 0 && all_digits(d) && digits_value(d) <= u16::MAX {
        Some(digits_value(d) as u16)
    } else {
        None
    }
}

/// The parts of `s` between the occurrences of `sep`; a text without `sep` is
/// its own single part.
pub open spec fn split(s: Seq<char>, sep: char) -> Seq<Seq<char>>
    decreases s.len(),
{
    if s.len() == 0 {
        seq![seq![]]
    } else {
        let parts = split(s.drop_last(), sep);
        if s.last() == sep {
            parts.push(seq![])
        } else {
            parts.update(parts.len() - 1, parts.last().push(s.last()))
        }
    }
}

/// Some part is not a number.
pub open spec fn some_part_fails(parts: Seq<Seq<char>>) -> bool {
    exists|i: int| 0 <= i < parts.len() && number(#[trigger] parts[i]) is None
}

/// What a text says of weeks. Every part between hyphens has to be a number;
/// one number is a week, two are a range, which may not start after its end.
pub open spec fn parsed_weeks(s: Seq<char>) -> Result<Weeks, WeeksError> {
    let parts = split(s, '-');
    if some_part_fails(parts) {
        Err(WeeksError::Number)
    } else if parts.len() == 1 {
        Ok(Weeks::Week(number(parts[0])->0))
    } else if parts.len() > 2 {
        Err(WeeksError::Parts)
    } else if number(parts[0])->0 <= number(parts[1])->0 {
        Ok(Weeks::WeekRange(number(parts[0])->0, number(parts[1])->0))
    } else {
        Err(WeeksError::Order)
    }
}

/// A digit more makes the number larger, or leaves it at zero.
proof fn lemma_digits_value_push(d: Seq<char>, c: char)
    requires
        is_digit(c),
    ensures
        digits_value(d.push(c)) == digits_value(d) * 10 + (c as u32 - '0' as u32),
        digits_value(d.push(c)) >= digits_value(d),
{
    assert(d.push(c).drop_last() =~= d);
}

impl WeeksError {
    /// What this error says of itself.
    pub open spec fn description(self) -> Seq<char> {
        match self {
            WeeksError::Number => "a week is a number from 0 to 65535"@,
            WeeksError::Parts => "weeks are one number, or two with a hyphen between them"@,
            WeeksError::Order => "a range of weeks starts with its first week"@,
        }
    }

    /// What this error says of itself.
    pub fn describe(&self) -> (text: String)
        ensures
            text@ == self.description(),
    {
        match self {
            WeeksError::Number => String::from_str("a week is a number from 0 to 65535"),
            WeeksError::Parts => String::from_str(
                "weeks are one number, or two with a hyphen between them",
            ),
            WeeksError::Order => String::from_str("a range of weeks starts with its first week"),
        }
    }
}

impl Weeks {
    /// Reads weeks from a text such as `3` or `3-5`.
    pub fn parse(s: &str) -> (r: Result<Weeks, WeeksError>)
        ensures
            r == parsed_weeks(s@),
    {
        // The parts that a hyphen has closed: how many (2 stands for more
        // than one), whether one of them was no number, and the first.
        let mut closed: u8 = 0;
        let mut failed = false;
        let mut first: u16 = 0;
        // The part that is being read.
        let mut empty = true;
        let mut has_digit = false;
        let mut bad = false;
        let mut value: u16 = 0;
        for c in it: s.chars()
            invariant
                it.seq() == s@,
                closed <= 2,
                ({
                    let parts = split(s@.take(it.index()), '-');
                    let cur = parts.last();
                    let d = unsigned(cur);
                    &&& parts.len() >= 1
                    &&& closed < 2 ==> parts.len() == closed + 1
                    &&& closed == 2 ==> parts.len() >= 3
                    &&& failed <==> exists|i: int|
                        0 <= i < parts.len() - 1 && number(#[trigger] parts[i]) is None
                    &&& closed >= 1 && !failed ==> number(parts[0]) == Some(first)
                    &&& empty <==> cur.len() == 0
                    &&& has_digit <==> d.len() > 0
                    &&& bad <==> !(all_digits(d) && digits_value(d) <= u16::MAX)
                    &&& !bad ==> value == digits_value(d)
                }),
        {
            let ghost before = s@.take(it.index());
            let ghost parts = split(before, '-');
            let ghost cur = parts.last();
            let ghost d = unsigned(cur);
            let ghost after = s@.take(it.index() + 1);
            proof {
                assert(after.drop_last() =~= before);
            }
            let code: u32 = c as u32;
            if c == '-' {
                proof {
                    let next = split(after, '-');
                    assert forall|i: int| 0 <= i < next.len() - 1 implies next[i] == parts[i] by {}
                    assert(number(cur) == if has_digit && !bad {
                        Some(value)
                    } else {
                        None
                    });
                }
                if !has_digit || bad {
                    failed = true;
                }
                if closed == 0 {
                    first = value;
                }
                if closed < 2 {
                    closed = closed + 1;
                }
                empty = true;
                has_digit = false;
                bad = false;
                value = 0;
            } else {
                proof {
                    let next = split(after, '-');
                    assert forall|i: int| 0 <= i < next.len() - 1 implies next[i] == parts[i] by {}
                    if cur.len() > 0 || c != '+' {
                        assert(unsigned(cur.push(c)) =~= d.push(c));
                        if is_digit(c) {
                            lemma_digits_value_push(d, c);
                        }
                        if !all_digits(d) {
                            let i = choose|i: int| 0 <= i < d.len() && !is_digit(d[i]);
                            assert(!is_digit(d.push(c)[i]));
                        }
                    }
                }
                if c == '+' && empty {
                    // A sign before the digits.
                } else if 0x30 <= code && code <= 0x39 {
                    has_digit = true;
                    if !bad {
                        let grown: u32 = value as u32 * 10 + (code - 0x30);
                        if grown <= 0xffff {
                            value = grown as u16;
                        } else {
                            bad = true;
                        }
                    }
                } else {
                    has_digit = true;
                    bad = true;
                }
                empty = false;
            }
        }
        proof {
            assert(s@.take(s@.len() as int) =~= s@);
            let parts = split(s@, '-');
            assert(number(parts.last()) == if has_digit && !bad {
                Some(value)
            } else {
                None
            });
        }
        if failed || !has_digit || bad {
            Err(WeeksError::Number)
        } else if closed == 0 {
            Ok(Weeks::Week(value))
        } else if closed == 2 {
            Err(WeeksError::Parts)
        } else if first <= value {
            Ok(Weeks::WeekRange(first, value))
        } else {
            Err(WeeksError::Order)
        }
    }
}

} // verus!
