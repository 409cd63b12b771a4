//! Times at which projects were opened: written as a decimal number of
//! milliseconds since the Unix epoch, and kept as that number where `chrono`
//! can turn it into an instant, which it can for some 262 thousand years to
//! either side of the epoch.

use chrono::{DateTime, Utc};
use vstd::prelude::*;
use crate::text::chars_of;

verus! {

/// The first millisecond of the first day that `chrono` has a date for:
/// January 1 of the year -262143, counted from the Unix epoch.
pub open spec fn earliest_millis() -> int {
    -8_334_601_228_800_000
}

/// The last millisecond of the last day that `chrono` has a date for:
/// December 31 of the year 262142, counted from the Unix epoch.
pub open spec fn latest_millis() -> int {
    8_210_266_876_799_999
}

/// Whether `chrono` has an instant for this number of milliseconds since the
/// Unix epoch: the day it falls on is within the dates that `chrono` has.
pub open spec fn utc_instant_exists(millis: i64) -> bool {
    earliest_millis() <= millis <= latest_millis()
}

/// `DateTime::<Utc>::from_timestamp_millis`: there is an instant for the
/// number of milliseconds exactly where the day it falls on lies between the
/// first and the last date that `chrono` has.
#[verifier::external_body]
pub(crate) fn is_utc_instant(millis: i64) -> (exists: bool)
    ensures
        exists == utc_instant_exists(millis),
{
    DateTime::<Utc>::from_timestamp_millis(millis).is_some()
}

/// Whether the character is a decimal digit.
pub open spec fn is_digit(c: char) -> bool {
    '0' <= c <= '9'
}

/// Whether the text is made of decimal digits only.
pub open spec fn all_digits(s: Seq<char>) -> bool {
    forall|i: int| 0 <= i < s.len() ==> is_digit(#[trigger] s[i])
}

/// The number that the digits write in base ten.
pub open spec fn decimal_value(s: Seq<char>) -> int
    decreases s.len(),
{
    if s.len() == 0 {
        0
    } else {
        decimal_value(s.drop_last()) * 10 + (s.last() as int - '0' as int)
    }
}

/// The digits of a number written with an optional sign in front.
pub open spec fn digits_of(text: Seq<char>) -> Seq<char> {
    if text.len() > 0 && (text[0] == '-' || text[0] == '+') {
        text.skip(1)
    } else {
        text
    }
}

/// The integer that the text writes: an optional `+` or `-`, then at least
/// one decimal digit and nothing else, within the range of `i64`.
pub open spec fn parsed_integer(text: Seq<char>) -> Option<i64> {
    let digits = digits_of(text);
    if digits.len() == 0 || !all_digits(digits) {
        None
    } else {
        let value = if text[0] == '-' {
            -decimal_value(digits)
        } else {
            decimal_value(digits)
        };
        if i64::MIN <= value <= i64::MAX {
            Some(value as i64)
        } else {
            None
        }
    }
}

/// The time that a record's raw timestamp gives: the integer it writes, where
/// it writes one that `chrono` has an instant for.
pub open spec fn opened_at(raw: Option<Seq<char>>) -> Option<i64> {
    match raw {
        None => None,
        Some(text) => match parsed_integer(text) {
            None => None,
            Some(millis) => if utc_instant_exists(millis) {
                Some(millis)
            } else {
                None
            },
        },
    }
}

/// Reads a decimal integer.
pub fn parse_integer(text: &str) -> (value: Option<i64>)
    ensures
        value == parsed_integer(text@),
{
    let chars = chars_of(text);
    if chars.len() == 0 {
        return None;
    }
    let negative = chars[0] == '-';
    let start: usize = if chars[0] == '-' || chars[0] == '+' {
        1
    } else {
        0
    };
    let ghost digits = digits_of(text@);
    assert(digits == chars@.skip(start as int));
    if start == chars.len() {
        return None;
    }
    let limit: u64 = if negative {
        9223372036854775808
    } else {
        9223372036854775807
    };
    let mut acc: u64 = 0;
    let mut overflow = false;
    let mut i: usize = start;
    assert(digits.take(0).len() == 0);
    while i < chars.len()
        invariant
            start <= i <= chars.len(),
            digits == chars@.skip(start as int),
            digits == digits_of(text@),
            all_digits(digits.take(i - start)),
            limit == 9223372036854775808 || limit == 9223372036854775807,
            !overflow ==> acc == decimal_value(digits.take(i - start)) && acc <= limit,
            overflow ==> decimal_value(digits.take(i - start)) > limit,
        decreases chars.len() - i,
    {
        let c = chars[i];
        let ghost upto = digits.take(i - start + 1);
        proof {
            assert(upto.drop_last() == digits.take(i - start));
            assert(upto.last() == c);
        }
        if !('0' <= c && c <= '9') {
            assert(digits[i - start] == c);
            return None;
        }
        assert forall|k: int| 0 <= k < upto.len() implies is_digit(#[trigger] upto[k]) by {
            if k < upto.len() - 1 {
                assert(upto[k] == digits.take(i - start)[k]);
            }
        }
        let d: u64 = (c as u32 - '0' as u32) as u64;
        if !overflow {
            if acc > (limit - d) / 10 {
                overflow = true;
            } else {
                acc = acc * 10 + d;
            }
        }
        i += 1;
    }
    assert(digits.take(chars.len() - start) == digits);
    if overflow {
        return None;
    }
    if negative {
        if acc == 9223372036854775808 {
            Some(i64::MIN)
        } else {
            Some(-(acc as i64))
        }
    } else {
        Some(acc as i64)
    }
}

/// Reads a record's raw timestamp. A record without one, with one that is no
/// integer, or with one outside the dates that can be represented has no
/// usable time.
pub fn last_opened_of(raw: Option<&str>) -> (opened: Option<i64>)
    ensures
        opened == opened_at(
            match raw {
                Some(text) => Some(text@),
                None => None,
            },
        ),
{
    match raw {
        None => None,
        Some(text) => match parse_integer(text) {
            None => None,
            Some(millis) => if is_utc_instant(millis) {
                Some(millis)
            } else {
                None
            },
        },
    }
}

} // verus!
