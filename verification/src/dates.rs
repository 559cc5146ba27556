//! Reading a date of partial precision from text: `YYYY`, `YYYY-MM` or
//! `YYYY-MM-DD`, each part an unsigned decimal number.

use vstd::prelude::*;
use vstd::string::*;
use crate::query::{Date, ParseErrorView, QueryParseError};
use crate::text::{decimal, parse_decimal, to_chars};

verus! {

/// The parts of a text between the occurrences of a separator. A text
/// without the separator is one part; an empty text is one empty part.
pub open spec fn split_on(s: Seq<char>, c: char) -> Seq<Seq<char>>
    decreases s.len(),
{
    if s.len() == 0 {
        seq![Seq::empty()]
    } else {
        let head = split_on(s.drop_last(), c);
        if s.last() == c {
            head.push(Seq::empty())
        } else {
            head.drop_last().push(head.last().push(s.last()))
        }
    }
}

/// The texts that a list of ranges cuts out of a text.
pub open spec fn ranges_text(s: Seq<char>, r: Seq<(usize, usize)>) -> Seq<Seq<char>> {
    Seq::new(r.len(), |k: int| s.subrange(r[k].0 as int, r[k].1 as int))
}

/// The ranges of the parts of a text between the occurrences of a separator.
pub fn split_ranges(chars: &Vec<char>, c: char) -> (r: Vec<(usize, usize)>)
    ensures
        ranges_text(chars@, r@) == split_on(chars@, c),
        r@.len() >= 1,
        forall|k: int| 0 <= k < r@.len() ==> (#[trigger] r@[k]).0 <= r@[k].1 <= chars@.len(),
{
    let len = chars.len();
    let mut done: Vec<(usize, usize)> = Vec::new();
    let mut start: usize = 0;
    let mut i: usize = 0;
    assert(chars@.subrange(0, 0) =~= Seq::empty());
    assert(ranges_text(chars@, done@).push(chars@.subrange(0, 0)) =~= seq![Seq::<char>::empty()]);
    while i < len
        invariant
            start <= i <= len,
            len == chars@.len(),
            forall|k: int| 0 <= k < done@.len() ==> (#[trigger] done@[k]).0 <= done@[k].1 <= len,
            split_on(chars@.subrange(0, i as int), c) == ranges_text(chars@, done@).push(
                chars@.subrange(start as int, i as int),
            ),
        decreases len - i,
    {
        let ghost p = chars@.subrange(0, i + 1);
        let ghost head = split_on(chars@.subrange(0, i as int), c);
        assert(p.drop_last() =~= chars@.subrange(0, i as int));
        assert(p.last() == chars@[i as int]);
        if chars[i] == c {
            done.push((start, i));
            start = i + 1;
            assert(ranges_text(chars@, done@) =~= head);
            assert(chars@.subrange(start as int, i + 1) =~= Seq::empty());
        } else {
            assert(head.drop_last() =~= ranges_text(chars@, done@));
            assert(head.last().push(chars@[i as int]) =~= chars@.subrange(start as int, i + 1));
        }
        i += 1;
    }
    assert(chars@.subrange(0, len as int) =~= chars@);
    let ghost before = ranges_text(chars@, done@);
    done.push((start, len));
    assert(ranges_text(chars@, done@) =~= before.push(chars@.subrange(start as int, len as int)));
    done
}

/// The date that a text writes. More than three parts are no date; a part
/// that is no number of its size is reported, the first such part first.
pub open spec fn parse_date(s: Seq<char>) -> Result<Date, ParseErrorView> {
    let parts = split_on(s, '-');
    if parts.len() > 3 {
        Err(ParseErrorView::InvalidDate(s))
    } else {
        match decimal(parts[0], u32::MAX as nat) {
            None => Err(ParseErrorView::IntegerError(parts[0])),
            Some(y) => if parts.len() == 1 {
                Ok(Date::Year(y as u32))
            } else {
                match decimal(parts[1], u8::MAX as nat) {
                    None => Err(ParseErrorView::IntegerError(parts[1])),
                    Some(m) => if parts.len() == 2 {
                        Ok(Date::YearMonth(y as u32, m as u8))
                    } else {
                        match decimal(parts[2], u8::MAX as nat) {
                            None => Err(ParseErrorView::IntegerError(parts[2])),
                            Some(d) => Ok(Date::YearMonthDay(y as u32, m as u8, d as u8)),
                        }
                    },
                }
            },
        }
    }
}

/// The view of a reading of a date.
pub open spec fn date_result_view(r: Result<Date, QueryParseError>) -> Result<
    Date,
    ParseErrorView,
> {
    match r {
        Ok(d) => Ok(d),
        Err(e) => Err(e@),
    }
}

/// Reads one part of a date as a number no larger than `max`.
fn read_part(s: &str, range: (usize, usize), max: u32) -> (r: Result<u32, QueryParseError>)
    requires
        range.0 <= range.1 <= s@.len(),
    ensures
        match r {
            Ok(n) => decimal(s@.subrange(range.0 as int, range.1 as int), max as nat) == Some(
                n as nat,
            ),
            Err(e) => decimal(s@.subrange(range.0 as int, range.1 as int), max as nat) is None
                && e@ == ParseErrorView::IntegerError(
                s@.subrange(range.0 as int, range.1 as int),
            ),
        },
{
    let part = s.substring_char(range.0, range.1);
    let chars = to_chars(part);
    match parse_decimal(&chars, max) {
        Some(n) => Ok(n),
        None => Err(QueryParseError::IntegerError(String::from_str(part))),
    }
}

impl Date {
    /// Reads a date of year, year-month or full precision.
    pub fn from_str(s: &str) -> (r: Result<Date, QueryParseError>)
        ensures
            date_result_view(r) == parse_date(s@),
    {
        let chars = to_chars(s);
        let ranges = split_ranges(&chars, '-');
        let ghost parts = split_on(s@, '-');
        assert(forall|k: int|
            0 <= k < parts.len() ==> #[trigger] parts[k] == s@.subrange(
                ranges@[k].0 as int,
                ranges@[k].1 as int,
            )) by {
            assert(parts == ranges_text(s@, ranges@));
        }
        assert(parts.len() == ranges@.len());
        if ranges.len() > 3 {
            return Err(QueryParseError::InvalidDate(String::from_str(s)));
        }
        let y = match read_part(s, ranges[0], u32::MAX) {
            Ok(y) => y,
            Err(e) => {
                return Err(e);
            },
        };
        if ranges.len() == 1 {
            return Ok(Date::Year(y));
        }
        let m = match read_part(s, ranges[1], 255) {
            Ok(m) => m,
            Err(e) => {
                return Err(e);
            },
        };
        if ranges.len() == 2 {
            return Ok(Date::YearMonth(y, m as u8));
        }
        match read_part(s, ranges[2], 255) {
            Ok(d) => Ok(Date::YearMonthDay(y, m as u8, d as u8)),
            Err(e) => Err(e),
        }
    }
}

impl std::str::FromStr for Date {
    type Err = QueryParseError;

    /// Reads a date of year, year-month or full precision.
    fn from_str(s: &str) -> (r: Result<Date, QueryParseError>)
        ensures
            date_result_view(r) == parse_date(s@),
    {
        Date::from_str(s)
    }
}

} // verus!
