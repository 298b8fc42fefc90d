//! The minute at which a list of headlines is written, and how it is
//! spelled in a file name.

use vstd::prelude::*;
use chrono::{Datelike, Timelike};
use crate::decimal::{digit_chars, lemma_zero_padded_shape, pow10, push_zero_padded, zero_padded};

verus! {

/// A date and a time of day, to the minute, in local time.
#[derive(Debug, Clone, Copy, PartialEq, Eq)]
pub struct MinuteStamp {
    /// The year of the calendar, which may be negative.
    pub year: i32,
    /// From 1 to 12.
    pub month: u32,
    /// From 1 to 31.
    pub day: u32,
    /// From 0 to 23.
    pub hour: u32,
    /// From 0 to 59.
    pub minute: u32,
}

impl MinuteStamp {
    /// Whether each part lies in the range that a calendar and a 24-hour
    /// clock give it.
    pub open spec fn in_range(self) -> bool {
        &&& 1 <= self.month <= 12
        &&& 1 <= self.day <= 31
        &&& self.hour <= 23
        &&& self.minute <= 59
    }

    /// Tells whether each part lies in its range.
    pub fn is_in_range(&self) -> (ok: bool)
        ensures
            ok == self.in_range(),
    {
        1 <= self.month && self.month <= 12 && 1 <= self.day && self.day <= 31 && self.hour <= 23
            && self.minute <= 59
    }
}

/// Reads the clock with `chrono::Local::now` and takes the year, month,
/// day, hour and minute of the local time that it gives.
///
/// Not proved, but taken from `chrono`: the ranges of the four parts other
/// than the year, as `Datelike` and `Timelike` document them. Nothing is
/// said of which minute it is: two calls may differ.
#[verifier::external_body]
pub(crate) fn local_now() -> (now: MinuteStamp)
    ensures
        now.in_range(),
{
    let now = chrono::Local::now();
    MinuteStamp {
        year: now.year(),
        month: now.month(),
        day: now.day(),
        hour: now.hour(),
        minute: now.minute(),
    }
}

/// A year in at least four digits. A year from 0 to 9999 is written in
/// exactly four; any other year gets its sign in front, `+` or `-`.
pub open spec fn year_text(year: int) -> Seq<char> {
    if 0 <= year <= 9999 {
        zero_padded(year as nat, 4)
    } else if year < 0 {
        seq!['-'] + zero_padded((-year) as nat, 4)
    } else {
        seq!['+'] + zero_padded(year as nat, 4)
    }
}

/// A stamp as `YYYY-MM-DD_HH.MM`: each part but the year in two digits.
pub open spec fn stamp_text(stamp: MinuteStamp) -> Seq<char> {
    year_text(stamp.year as int) + seq!['-'] + zero_padded(stamp.month as nat, 2) + seq!['-']
        + zero_padded(stamp.day as nat, 2) + seq!['_'] + zero_padded(stamp.hour as nat, 2)
        + seq!['.'] + zero_padded(stamp.minute as nat, 2)
}

/// Appends a year to `out`.
fn push_year(out: &mut String, year: i32)
    ensures
        final(out)@ == old(out)@ + year_text(year as int),
{
    if 0 <= year && year <= 9999 {
        push_zero_padded(out, year as u64, 4);
    } else if year < 0 {
        out.append("-");
        let size: i64 = -(year as i64);
        push_zero_padded(out, size as u64, 4);
        proof {
            reveal_strlit("-");
            assert(out@ =~= old(out)@ + year_text(year as int));
        }
    } else {
        out.append("+");
        push_zero_padded(out, year as u64, 4);
        proof {
            reveal_strlit("+");
            assert(out@ =~= old(out)@ + year_text(year as int));
        }
    }
}

/// Appends a stamp to `out`.
pub fn push_stamp(out: &mut String, stamp: &MinuteStamp)
    ensures
        final(out)@ == old(out)@ + stamp_text(*stamp),
{
    push_year(out, stamp.year);
    out.append("-");
    push_zero_padded(out, stamp.month as u64, 2);
    out.append("-");
    push_zero_padded(out, stamp.day as u64, 2);
    out.append("_");
    push_zero_padded(out, stamp.hour as u64, 2);
    out.append(".");
    push_zero_padded(out, stamp.minute as u64, 2);
    proof {
        reveal_strlit("-");
        reveal_strlit("_");
        reveal_strlit(".");
        assert(out@ =~= old(out)@ + stamp_text(*stamp));
    }
}

/// A stamp as text.
pub fn stamp_to_text(stamp: &MinuteStamp) -> (text: String)
    ensures
        text@ == stamp_text(*stamp),
{
    let mut text = String::new();
    push_stamp(&mut text, stamp);
    assert(text@ =~= stamp_text(*stamp));
    text
}

/// Whether `text` has the shape `YYYY-MM-DD_HH.MM`: sixteen characters,
/// digits but for the four separators.
pub open spec fn has_stamp_shape(text: Seq<char>) -> bool {
    &&& text.len() == 16
    &&& text[4] == '-'
    &&& text[7] == '-'
    &&& text[10] == '_'
    &&& text[13] == '.'
    &&& forall|i: int|
        0 <= i < 16 && i != 4 && i != 7 && i != 10 && i != 13 ==> digit_chars().contains(
            #[trigger] text[i],
        )
}

/// A stamp whose parts lie in their ranges, of a year from 0 to 9999, is
/// spelled in the shape `YYYY-MM-DD_HH.MM`.
pub proof fn lemma_stamp_text_shape(stamp: MinuteStamp)
    requires
        stamp.in_range(),
        0 <= stamp.year <= 9999,
    ensures
        has_stamp_shape(stamp_text(stamp)),
{
    assert(pow10(2) == 100 && pow10(4) == 10000) by {
        reveal_with_fuel(pow10, 5);
    }
    lemma_zero_padded_shape(stamp.year as nat, 4);
    lemma_zero_padded_shape(stamp.month as nat, 2);
    lemma_zero_padded_shape(stamp.day as nat, 2);
    lemma_zero_padded_shape(stamp.hour as nat, 2);
    lemma_zero_padded_shape(stamp.minute as nat, 2);
    let year = zero_padded(stamp.year as nat, 4);
    let month = zero_padded(stamp.month as nat, 2);
    let day = zero_padded(stamp.day as nat, 2);
    let hour = zero_padded(stamp.hour as nat, 2);
    let minute = zero_padded(stamp.minute as nat, 2);
    let text = stamp_text(stamp);
    assert(text.len() == 16);
    assert forall|i: int|
        0 <= i < 16 && i != 4 && i != 7 && i != 10 && i != 13 implies digit_chars().contains(
        #[trigger] text[i],
    ) by {
        if i < 4 {
            assert(text[i] == year[i]);
        } else if i < 7 {
            assert(text[i] == month[i - 5]);
        } else if i < 10 {
            assert(text[i] == day[i - 8]);
        } else if i < 13 {
            assert(text[i] == hour[i - 11]);
        } else {
            assert(text[i] == minute[i - 14]);
        }
    }
}

} // verus!
