//! Parsing of the weekday notations the course service returns.

use vstd::prelude::*;

use crate::strutil::str_eq;

verus! {

/// What parsing a short weekday notation yields: the one-character day
/// names, Monday through Sunday, as the numbers 0 through 6.
pub open spec fn spec_parse_short_weekday(s: Seq<char>) -> Option<u8> {
    if s == "一"@ {
        Some(0u8)
    } else if s == "二"@ {
        Some(1u8)
    } else if s == "三"@ {
        Some(2u8)
    } else if s == "四"@ {
        Some(3u8)
    } else if s == "五"@ {
        Some(4u8)
    } else if s == "六"@ {
        Some(5u8)
    } else if s == "日"@ {
        Some(6u8)
    } else {
        None
    }
}

/// Parse a short weekday notation, exactly as
/// [`spec_parse_short_weekday`] states.
pub fn parse_short_weekday(weekday: &str) -> (r: Option<u8>)
    ensures
        r == spec_parse_short_weekday(weekday@),
{
    if str_eq(weekday, "一") {
        Some(0)
    } else if str_eq(weekday, "二") {
        Some(1)
    } else if str_eq(weekday, "三") {
        Some(2)
    } else if str_eq(weekday, "四") {
        Some(3)
    } else if str_eq(weekday, "五") {
        Some(4)
    } else if str_eq(weekday, "六") {
        Some(5)
    } else if str_eq(weekday, "日") {
        Some(6)
    } else {
        None
    }
}

/// What parsing a long weekday notation yields: the three-character day
/// names, Monday through Sunday, as the numbers 0 through 6.
pub open spec fn spec_parse_long_weekday(s: Seq<char>) -> Option<u8> {
    if s == "星期一"@ {
        Some(0u8)
    } else if s == "星期二"@ {
        Some(1u8)
    } else if s == "星期三"@ {
        Some(2u8)
    } else if s == "星期四"@ {
        Some(3u8)
    } else if s == "星期五"@ {
        Some(4u8)
    } else if s == "星期六"@ {
        Some(5u8)
    } else if s == "星期日"@ {
        Some(6u8)
    } else {
        None
    }
}

/// Parse a long weekday notation, exactly as [`spec_parse_long_weekday`]
/// states.
pub fn parse_long_weekday(weekday: &str) -> (r: Option<u8>)
    ensures
        r == spec_parse_long_weekday(weekday@),
{
    if str_eq(weekday, "星期一") {
        Some(0)
    } else if str_eq(weekday, "星期二") {
        Some(1)
    } else if str_eq(weekday, "星期三") {
        Some(2)
    } else if str_eq(weekday, "星期四") {
        Some(3)
    } else if str_eq(weekday, "星期五") {
        Some(4)
    } else if str_eq(weekday, "星期六") {
        Some(5)
    } else if str_eq(weekday, "星期日") {
        Some(6)
    } else {
        None
    }
}

/// What parsing a weekday in either notation yields: the short notation
/// first, then the long one.
pub open spec fn spec_parse_weekday(s: Seq<char>) -> Option<u8> {
    match spec_parse_short_weekday(s) {
        Some(d) => Some(d),
        None => spec_parse_long_weekday(s),
    }
}

/// Parse a weekday in either notation, exactly as [`spec_parse_weekday`]
/// states.
pub fn parse_weekday(weekday: &str) -> (r: Option<u8>)
    ensures
        r == spec_parse_weekday(weekday@),
{
    match parse_short_weekday(weekday) {
        Some(d) => Some(d),
        None => parse_long_weekday(weekday),
    }
}

} // verus!
