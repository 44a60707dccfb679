//! How the values of a diagnostic dump are written as text.

use vstd::prelude::*;
use vstd::string::StringExecFns;

use crate::reading::{str_view, text_view};

verus! {

/// The character for one decimal digit.
pub open spec fn digit_char(digit: nat) -> char
    recommends
        digit < 10,
{
    if digit == 0 {
        '0'
    } else if digit == 1 {
        '1'
    } else if digit == 2 {
        '2'
    } else if digit == 3 {
        '3'
    } else if digit == 4 {
        '4'
    } else if digit == 5 {
        '5'
    } else if digit == 6 {
        '6'
    } else if digit == 7 {
        '7'
    } else if digit == 8 {
        '8'
    } else {
        '9'
    }
}

/// A number in decimal, without sign or leading zeros.
pub open spec fn decimal_spec(n: nat) -> Seq<char>
    decreases n,
{
    if n < 10 {
        seq![digit_char(n)]
    } else {
        decimal_spec(n / 10).push(digit_char(n % 10))
    }
}

/// A count of hundredths as a decimal fraction: the whole part, a point, and
/// one fractional digit, or two where the second is not zero.
pub open spec fn hundredths_spec(n: nat) -> Seq<char> {
    let whole = decimal_spec(n / 100).push('.').push(digit_char(n / 10 % 10));
    if n % 10 == 0 {
        whole
    } else {
        whole.push(digit_char(n % 10))
    }
}

/// A signed count of hundredths as a decimal fraction, with a minus sign
/// before a negative one.
pub open spec fn signed_hundredths_spec(n: int) -> Seq<char> {
    if n < 0 {
        seq!['-'] + hundredths_spec((-n) as nat)
    } else {
        hundredths_spec(n as nat)
    }
}

/// A number of seconds: the number in decimal and the unit `s`.
pub open spec fn seconds_spec(seconds: nat) -> Seq<char> {
    decimal_spec(seconds).push('s')
}

/// An optional value whose content is already written: `None` for an absent
/// one, the content between `Some(` and `)` for a present one.
pub open spec fn optional_spec(content: Option<Seq<char>>) -> Seq<char> {
    match content {
        Some(text) => seq!['S', 'o', 'm', 'e', '('] + text + seq![')'],
        None => seq!['N', 'o', 'n', 'e'],
    }
}

/// An absent value is shown as the four letters of `None`, and no present
/// value is shown so, whatever its content: not an empty one either.
pub proof fn lemma_absent_is_marked(content: Option<Seq<char>>)
    ensures
        content.is_none() <==> optional_spec(content) == seq!['N', 'o', 'n', 'e'],
        optional_spec(content).len() >= 4,
{
    match content {
        Some(text) => {
            assert(optional_spec(content)[0] == 'S');
            assert(seq!['N', 'o', 'n', 'e'][0] == 'N');
        },
        None => {},
    }
}

/// A text as `<str as core::fmt::Debug>::fmt` writes it: between double
/// quotes, with its special characters escaped.
pub uninterp spec fn quoted_spec(text: Seq<char>) -> Seq<char>;

/// Formats `text` through `<str as core::fmt::Debug>::fmt`. Taken on trust:
/// that the result depends on the characters of `text` alone. Nothing is
/// claimed of how it looks.
#[verifier::external_body]
pub(crate) fn quoted(text: &str) -> (quoted: String)
    ensures
        quoted@ == quoted_spec(text@),
{
    format!("{:?}", text)
}

fn digit(d: u64) -> (text: &'static str)
    requires
        d < 10,
    ensures
        text@ == seq![digit_char(d as nat)],
{
    proof {
        reveal_strlit("0");
        reveal_strlit("1");
        reveal_strlit("2");
        reveal_strlit("3");
        reveal_strlit("4");
        reveal_strlit("5");
        reveal_strlit("6");
        reveal_strlit("7");
        reveal_strlit("8");
        reveal_strlit("9");
    }
    let text: &'static str = if d == 0 {
        "0"
    } else if d == 1 {
        "1"
    } else if d == 2 {
        "2"
    } else if d == 3 {
        "3"
    } else if d == 4 {
        "4"
    } else if d == 5 {
        "5"
    } else if d == 6 {
        "6"
    } else if d == 7 {
        "7"
    } else if d == 8 {
        "8"
    } else {
        "9"
    };
    assert(text@ =~= seq![digit_char(d as nat)]);
    text
}

/// Writes a number in decimal, without sign or leading zeros.
pub fn decimal(n: u64) -> (text: String)
    ensures
        text@ == decimal_spec(n as nat),
    decreases n,
{
    if n < 10 {
        String::from_str(digit(n))
    } else {
        let mut text = decimal(n / 10);
        text.append(digit(n % 10));
        assert(text@ =~= decimal_spec(n as nat));
        text
    }
}

/// Writes a count of hundredths as a decimal fraction: `5500` as `55.0`,
/// `5525` as `55.25`.
pub fn hundredths(n: u64) -> (text: String)
    ensures
        text@ == hundredths_spec(n as nat),
{
    proof {
        reveal_strlit(".");
    }
    let mut text = decimal(n / 100);
    text.append(".");
    text.append(digit(n / 10 % 10));
    if n % 10 != 0 {
        text.append(digit(n % 10));
    }
    assert(text@ =~= hundredths_spec(n as nat));
    text
}

/// Writes a signed count of hundredths as a decimal fraction: `-5` as `-0.05`.
pub fn signed_hundredths(n: i32) -> (text: String)
    ensures
        text@ == signed_hundredths_spec(n as int),
{
    if n < 0 {
        proof {
            reveal_strlit("-");
        }
        let magnitude: u64 = (-(n as i64)) as u64;
        let digits = hundredths(magnitude);
        let text = String::from_str("-").concat(digits.as_str());
        assert(text@ =~= signed_hundredths_spec(n as int));
        text
    } else {
        hundredths(n as u64)
    }
}

/// Writes a number of seconds: `1500` as `1500s`.
pub fn seconds(n: u64) -> (text: String)
    ensures
        text@ == seconds_spec(n as nat),
{
    proof {
        reveal_strlit("s");
    }
    let mut text = decimal(n);
    text.append("s");
    assert(text@ =~= seconds_spec(n as nat));
    text
}

/// Writes an optional value whose content is already written: `None` for an
/// absent one, `Some(..)` around the content of a present one.
pub fn optional(content: Option<String>) -> (text: String)
    ensures
        text@ == optional_spec(text_view(content)),
{
    proof {
        reveal_strlit("None");
        reveal_strlit("Some(");
        reveal_strlit(")");
    }
    match content {
        Some(inner) => {
            let mut text = String::from_str("Some(");
            text.append(inner.as_str());
            text.append(")");
            assert(text@ =~= optional_spec(Some(inner@)));
            text
        },
        None => {
            let text = String::from_str("None");
            assert(text@ =~= optional_spec(None));
            text
        },
    }
}

/// An optional text as a dump shows it: quoted inside `Some(..)`, or `None`.
pub open spec fn optional_text_spec(text: Option<Seq<char>>) -> Seq<char> {
    optional_spec(
        match text {
            Some(t) => Some(quoted_spec(t)),
            None => None,
        },
    )
}

/// An optional count as a dump shows it: in decimal inside `Some(..)`, or
/// `None`.
pub open spec fn optional_count_spec(count: Option<u32>) -> Seq<char> {
    optional_spec(
        match count {
            Some(n) => Some(decimal_spec(n as nat)),
            None => None,
        },
    )
}

/// An optional temperature as a dump shows it: as a decimal fraction inside
/// `Some(..)`, or `None`.
pub open spec fn optional_temperature_spec(temperature: Option<i32>) -> Seq<char> {
    optional_spec(
        match temperature {
            Some(t) => Some(signed_hundredths_spec(t as int)),
            None => None,
        },
    )
}

/// An optional time as a dump shows it: in seconds inside `Some(..)`, or
/// `None`.
pub open spec fn optional_time_spec(time: Option<u64>) -> Seq<char> {
    optional_spec(
        match time {
            Some(s) => Some(seconds_spec(s as nat)),
            None => None,
        },
    )
}

/// Writes an optional text as a dump shows it. What stands between the
/// brackets of a present text is std's quoted form of it.
pub fn optional_text(text: Option<&str>) -> (shown: String)
    ensures
        shown@ == optional_text_spec(str_view(text)),
{
    match text {
        Some(t) => optional(Some(quoted(t))),
        None => optional(None),
    }
}

/// Writes an optional count as a dump shows it: `Some(3)`, or `None`.
pub fn optional_count(count: Option<u32>) -> (shown: String)
    ensures
        shown@ == optional_count_spec(count),
{
    match count {
        Some(n) => optional(Some(decimal(n as u64))),
        None => optional(None),
    }
}

/// Writes an optional temperature as a dump shows it: `Some(30.5)`, or `None`.
pub fn optional_temperature(temperature: Option<i32>) -> (shown: String)
    ensures
        shown@ == optional_temperature_spec(temperature),
{
    match temperature {
        Some(t) => optional(Some(signed_hundredths(t))),
        None => optional(None),
    }
}

/// Writes an optional time as a dump shows it: `Some(1500s)`, or `None`.
pub fn optional_time(time: Option<u64>) -> (shown: String)
    ensures
        shown@ == optional_time_spec(time),
{
    match time {
        Some(s) => optional(Some(seconds(s))),
        None => optional(None),
    }
}

} // verus!
