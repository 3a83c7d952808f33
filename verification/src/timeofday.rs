//! Times of day in strict 24-hour `HH:MM` form, and their value in
//! minutes past midnight.

use vstd::prelude::*;

verus! {

/// Whether `c` is a decimal digit.
pub open spec fn is_digit(c: char) -> bool {
    '0' <= c && c <= '9'
}

/// Numeric value of a decimal digit character.
pub open spec fn digit_val(c: char) -> int {
    c as int - '0' as int
}

/// A time-of-day string in strict 24-hour `HH:MM` form: two digits of
/// hour below 24, a colon, two digits of minute below 60.
pub open spec fn valid_hhmm(s: Seq<char>) -> bool {
    &&& s.len() == 5
    &&& is_digit(s[0])
    &&& is_digit(s[1])
    &&& s[2] == ':'
    &&& is_digit(s[3])
    &&& is_digit(s[4])
    &&& digit_val(s[0]) * 10 + digit_val(s[1]) < 24
    &&& digit_val(s[3]) * 10 + digit_val(s[4]) < 60
}

/// Minutes past midnight named by a valid `HH:MM` string.
pub open spec fn hhmm_minutes(s: Seq<char>) -> int {
    (digit_val(s[0]) * 10 + digit_val(s[1])) * 60 + digit_val(s[3]) * 10 + digit_val(s[4])
}

/// Parse a strict `HH:MM` time of day into minutes past midnight;
/// `None` exactly on strings not of that form.
pub fn parse_hhmm(s: &str) -> (r: Option<u16>)
    ensures
        match r {
            Some(m) => valid_hhmm(s@) && m == hhmm_minutes(s@),
            None => !valid_hhmm(s@),
        },
{
    if s.unicode_len() != 5 {
        return None;
    }
    if s.get_char(2) != ':' {
        return None;
    }
    let h = match two_digits(s.get_char(0), s.get_char(1)) {
        Some(v) => v,
        None => {
            return None;
        },
    };
    let m = match two_digits(s.get_char(3), s.get_char(4)) {
        Some(v) => v,
        None => {
            return None;
        },
    };
    if h >= 24 || m >= 60 {
        return None;
    }
    Some(h * 60 + m)
}

/// Value of a two-digit decimal number; `None` when either character is
/// not a digit.
fn two_digits(c0: char, c1: char) -> (r: Option<u16>)
    ensures
        match r {
            Some(v) => is_digit(c0) && is_digit(c1) && v == digit_val(c0) * 10 + digit_val(c1),
            None => !(is_digit(c0) && is_digit(c1)),
        },
{
    let d0 = c0 as u32;
    let d1 = c1 as u32;
    if 48 <= d0 && d0 <= 57 && 48 <= d1 && d1 <= 57 {
        Some(((d0 - 48) * 10 + (d1 - 48)) as u16)
    } else {
        None
    }
}

} // verus!
