//! Calendar dates, computed by the `chrono` crate.
//!
//! A point in time is held as whole seconds since 1970-01-01T00:00:00Z.

use vstd::prelude::*;
use crate::number::decimal_text;

verus! {

/// The instant that `s` writes in RFC 3339 form, in seconds since the epoch;
/// `None` when `s` is not in that form.
pub uninterp spec fn rfc3339_seconds(s: Seq<char>) -> Option<i64>;

/// The instant that `s` writes in the layout `format`, in seconds since the
/// epoch; `None` when `s` does not follow the layout.
pub uninterp spec fn formatted_seconds(s: Seq<char>, format: Seq<char>) -> Option<i64>;

/// Year, month and day, in UTC, of the instant `seconds` after the epoch;
/// `None` when the calendar does not reach that far.
pub uninterp spec fn civil_date(seconds: i64) -> Option<(i32, u32, u32)>;

/// `chrono::DateTime::parse_from_rfc3339`, then `DateTime::timestamp`: reads
/// an RFC 3339 instant. The result is the named one; nothing else is claimed
/// of it.
#[verifier::external_body]
pub(crate) fn parse_rfc3339(s: &str) -> (r: Option<i64>)
    ensures
        r == rfc3339_seconds(s@),
{
    match chrono::DateTime::parse_from_rfc3339(s) {
        Ok(d) => Some(d.timestamp()),
        Err(_) => None,
    }
}

/// `chrono::DateTime::parse_from_str`, then `DateTime::timestamp`: reads an
/// instant written in a given layout. The result is the named one; nothing
/// else is claimed of it.
#[verifier::external_body]
pub(crate) fn parse_formatted(s: &str, format: &str) -> (r: Option<i64>)
    ensures
        r == formatted_seconds(s@, format@),
{
    match chrono::DateTime::parse_from_str(s, format) {
        Ok(d) => Some(d.timestamp()),
        Err(_) => None,
    }
}

/// `chrono::DateTime::from_timestamp`, then the `Datelike` accessors `year`,
/// `month` and `day`: the UTC calendar date of an instant. The result is the
/// named one; nothing else is claimed of it.
#[verifier::external_body]
pub(crate) fn date_of_seconds(seconds: i64) -> (r: Option<(i32, u32, u32)>)
    ensures
        r == civil_date(seconds),
{
    chrono::DateTime::from_timestamp(seconds, 0).map(
        |d| (chrono::Datelike::year(&d), chrono::Datelike::month(&d), chrono::Datelike::day(&d)),
    )
}

/// `n` in decimal, padded with zeros on the left to at least `width` digits.
pub open spec fn padded_decimal(n: nat, width: nat) -> Seq<char> {
    let d = decimal_text(n);
    if d.len() >= width {
        d
    } else {
        Seq::new((width - d.len()) as nat, |i: int| '0') + d
    }
}

/// A calendar date as `YYYY-MM-DD`. Years outside 0..=9999 carry a sign.
pub open spec fn day_text(year: i32, month: u32, day: u32) -> Seq<char> {
    let y = if year < 0 {
        seq!['-'] + padded_decimal((-year) as nat, 4)
    } else if year > 9999 {
        seq!['+'] + padded_decimal(year as nat, 4)
    } else {
        padded_decimal(year as nat, 4)
    };
    y + seq!['-'] + padded_decimal(month as nat, 2) + seq!['-'] + padded_decimal(day as nat, 2)
}

/// The date of the instant `seconds` as `YYYY-MM-DD`, or the empty text when
/// the calendar does not reach that far.
pub open spec fn date_text(seconds: i64) -> Seq<char> {
    match civil_date(seconds) {
        Some((y, m, d)) => day_text(y, m, d),
        None => Seq::empty(),
    }
}

/// Appends `n` in decimal, padded with zeros to at least `width` digits.
pub fn push_padded(out: &mut Vec<char>, n: u64, width: usize)
    ensures
        final(out)@ == old(out)@ + padded_decimal(n as nat, width as nat),
{
    let digits = crate::number::decimal(n as u128);
    let ghost start = out@;
    if digits.len() < width {
        let pad: usize = width - digits.len();
        let mut i: usize = 0;
        while i < pad
            invariant
                i <= pad,
                out@ == start + Seq::new(i as nat, |k: int| '0'),
            decreases pad - i,
        {
            out.push('0');
            i = i + 1;
            assert(out@ =~= start + Seq::new(i as nat, |k: int| '0'));
        }
    }
    crate::text::append(out, &digits);
    assert(out@ =~= start + padded_decimal(n as nat, width as nat));
}

/// Writes a calendar date as `YYYY-MM-DD`.
pub fn format_day(year: i32, month: u32, day: u32) -> (r: Vec<char>)
    ensures
        r@ == day_text(year, month, day),
{
    let mut out: Vec<char> = Vec::new();
    if year < 0 {
        out.push('-');
        push_padded(&mut out, (-(year as i64)) as u64, 4);
    } else if year > 9999 {
        out.push('+');
        push_padded(&mut out, year as u64, 4);
    } else {
        push_padded(&mut out, year as u64, 4);
    }
    out.push('-');
    push_padded(&mut out, month as u64, 2);
    out.push('-');
    push_padded(&mut out, day as u64, 2);
    assert(out@ =~= day_text(year, month, day));
    out
}

/// The date of the instant `seconds` as `YYYY-MM-DD`; empty when the
/// calendar does not reach that far.
pub fn format_date(seconds: i64) -> (r: Vec<char>)
    ensures
        r@ == date_text(seconds),
{
    match date_of_seconds(seconds) {
        Some((y, m, d)) => format_day(y, m, d),
        None => Vec::new(),
    }
}

} // verus!
