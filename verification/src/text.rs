//! Plain-text helpers of the coordination core: reading a whole-second
//! duration from a command-line argument, and printing counters into the
//! notification summaries.

use vstd::prelude::*;

verus! {

/// A decimal digit character.
pub open spec fn is_dec_digit(c: char) -> bool {
    '0' as int <= c as int && c as int <= '9' as int
}

/// The numeric value of a decimal digit character.
pub open spec fn digit_val(c: char) -> nat {
    (c as int - '0' as int) as nat
}

/// Every character of the sequence is a decimal digit.
pub open spec fn all_dec_digits(s: Seq<char>) -> bool {
    forall|i: int| 0 <= i < s.len() ==> is_dec_digit(#[trigger] s[i])
}

/// The number a sequence of decimal digit characters denotes.
pub open spec fn dec_value(s: Seq<char>) -> nat
    decreases s.len(),
{
    if s.len() == 0 {
        0
    } else {
        dec_value(s.drop_last()) * 10 + digit_val(s.last())
    }
}

/// The character of a decimal digit value.
pub open spec fn digit_char(d: nat) -> char {
    if d == 0 {
        '0'
    } else if d == 1 {
        '1'
    } else if d == 2 {
        '2'
    } else if d == 3 {
        '3'
    } else if d == 4 {
        '4'
    } else if d == 5 {
        '5'
    } else if d == 6 {
        '6'
    } else if d == 7 {
        '7'
    } else if d == 8 {
        '8'
    } else {
        '9'
    }
}

/// The canonical decimal spelling of a number: no leading zeros, except that
/// zero itself is spelled "0".
pub open spec fn dec_digits(n: nat) -> Seq<char>
    decreases n,
{
    if n < 10 {
        seq![digit_char(n)]
    } else {
        dec_digits(n / 10).push(digit_char(n % 10))
    }
}

/// Why a seconds argument was rejected.
#[derive(Clone, Copy, Debug, PartialEq, Eq, Structural)]
pub enum ParseSecondsError {
    /// The argument is empty.
    Empty,
    /// A character that is not a decimal digit was reached, or nothing
    /// follows the sign.
    InvalidDigit,
    /// The digits read so far already exceed the largest representable
    /// number of seconds.
    Overflow,
}

/// How many characters the optional sign takes: one for a single leading
/// `+`, none otherwise.
pub open spec fn sign_len(s: Seq<char>) -> int {
    if s.len() > 0 && s[0] == '+' {
        1
    } else {
        0
    }
}

/// The argument with its optional leading `+` removed: the part that must be
/// decimal digits.
pub open spec fn digits_part(s: Seq<char>) -> Seq<char> {
    s.skip(sign_len(s))
}

/// Read a whole number of seconds from a command-line argument: one optional
/// leading `+`, then one or more decimal digits. The digits are scanned left
/// to right: the first character that is not a decimal digit rejects the
/// argument, and so does a digit that pushes the value past the representable
/// range, whichever comes first.
pub fn parse_seconds(s: &str) -> (r: Result<u64, ParseSecondsError>)
    ensures
        match r {
            Ok(n) => {
                let d = digits_part(s@);
                &&& d.len() > 0
                &&& all_dec_digits(d)
                &&& dec_value(d) <= u64::MAX
                &&& n == dec_value(d)
            },
            Err(ParseSecondsError::Empty) => s@.len() == 0,
            Err(ParseSecondsError::InvalidDigit) => {
                let d = digits_part(s@);
                &&& s@.len() > 0
                &&& (d.len() == 0 || exists|j: int|
                    0 <= j < d.len() && !is_dec_digit(#[trigger] d[j]) && all_dec_digits(
                        d.take(j),
                    ) && dec_value(d.take(j)) <= u64::MAX)
            },
            Err(ParseSecondsError::Overflow) => {
                let d = digits_part(s@);
                exists|j: int|
                    0 <= j < d.len() && is_dec_digit(#[trigger] d[j]) && all_dec_digits(
                        d.take(j + 1),
                    ) && dec_value(d.take(j)) <= u64::MAX && dec_value(d.take(j + 1)) > u64::MAX
            },
        },
{
    let ghost d = digits_part(s@);
    let len = s.unicode_len();
    if len == 0 {
        return Err(ParseSecondsError::Empty);
    }
    let first = s.get_char(0);
    let start: usize = if first == '+' {
        1
    } else {
        0
    };
    proof {
        assert(start == sign_len(s@));
    }
    if start == len {
        // A sign with nothing after it.
        proof {
            assert(d.len() == 0);
        }
        return Err(ParseSecondsError::InvalidDigit);
    }
    let mut acc: u64 = 0;
    let mut i: usize = start;
    while i < len
        invariant
            start <= i <= len,
            len == s@.len(),
            start == sign_len(s@),
            d == digits_part(s@),
            all_dec_digits(s@.subrange(start as int, i as int)),
            acc == dec_value(s@.subrange(start as int, i as int)),
        decreases len - i,
    {
        let ghost j = i - start;
        proof {
            assert(d.take(j) =~= s@.subrange(start as int, i as int));
            assert(d[j] == s@[i as int]);
        }
        let c = s.get_char(i);
        let cv = c as u32;
        if cv < 48 || cv > 57 {
            proof {
                assert(!is_dec_digit(d[j]));
            }
            return Err(ParseSecondsError::InvalidDigit);
        }
        let dv = (cv - 48) as u64;
        proof {
            assert(is_dec_digit(d[j]));
            assert(dv == digit_val(d[j]));
            assert(d.take(j + 1).drop_last() =~= d.take(j));
            assert(d.take(j + 1).last() == d[j]);
            assert(dec_value(d.take(j + 1)) == dec_value(d.take(j)) * 10 + digit_val(d[j]));
            assert(d.take(j + 1) =~= s@.subrange(start as int, i + 1));
        }
        let shifted = match acc.checked_mul(10) {
            Some(t) => t,
            None => {
                return Err(ParseSecondsError::Overflow);
            },
        };
        acc = match shifted.checked_add(dv) {
            Some(t) => t,
            None => {
                return Err(ParseSecondsError::Overflow);
            },
        };
        i = i + 1;
    }
    proof {
        assert(s@.subrange(start as int, len as int) =~= d);
    }
    Ok(acc)
}

/// The decimal digit as a one-character string slice.
fn digit_str(d: usize) -> (r: &'static str)
    requires
        d < 10,
    ensures
        r@ =~= seq![digit_char(d as nat)],
{
    proof {
        reveal_strlit("0");
        reveal_strlit("1");
        reveal_strlit("2");
        reveal_strlit("3");
        reveal_strlit("4");
        reveal_strlit("5");
        reveal_strlit("6");
        reveal_strlit("7");
        reveal_strlit("8");
        reveal_strlit("9");
    }
    match d {
        0 => "0",
        1 => "1",
        2 => "2",
        3 => "3",
        4 => "4",
        5 => "5",
        6 => "6",
        7 => "7",
        8 => "8",
        _ => "9",
    }
}

/// Append a counter in decimal, as the notification summaries need it.
pub fn append_usize(s: &mut String, n: usize)
    ensures
        final(s)@ == old(s)@ + dec_digits(n as nat),
    decreases n,
{
    if n < 10 {
        s.append(digit_str(n));
        proof {
            assert(final(s)@ =~= old(s)@ + dec_digits(n as nat));
        }
    } else {
        append_usize(s, n / 10);
        s.append(digit_str(n % 10));
        proof {
            assert(final(s)@ =~= old(s)@ + dec_digits(n as nat));
        }
    }
}

/// Print a counter in decimal.
pub fn usize_to_string(n: usize) -> (s: String)
    ensures
        s@ == dec_digits(n as nat),
{
    let mut s = String::new();
    append_usize(&mut s, n);
    proof {
        assert(s@ =~= dec_digits(n as nat));
    }
    s
}

} // verus!
