//! Shared data models: the class-period range and the library book record.

use vstd::prelude::*;

use crate::strutil::{
    digits_val, parse_u8, parses_as_u8, spec_split, spec_uint_str, split_char, u16_to_string,
};

verus! {

/// A range of class periods; a single period has equal ends.
#[derive(Debug, Clone, Copy, PartialEq, Eq, Structural)]
pub struct Period {
    /// The first period of the range.
    pub start: u8,
    /// The last period of the range, itself included.
    pub end: u8,
}

/// What parsing a period string yields.  The string is cut at `-`; the
/// leading segments that read as numbers decide: one number stands for a
/// single period, two for a range, none or three and more for nothing.
pub open spec fn spec_parse_period_str(s: Seq<char>) -> Option<Period> {
    let segs = spec_split(s, '-');
    if segs.len() == 0 || !parses_as_u8(segs[0]) {
        None
    } else if segs.len() == 1 || !parses_as_u8(segs[1]) {
        Some(Period { start: digits_val(segs[0]) as u8, end: digits_val(segs[0]) as u8 })
    } else if segs.len() == 2 || !parses_as_u8(segs[2]) {
        Some(Period { start: digits_val(segs[0]) as u8, end: digits_val(segs[1]) as u8 })
    } else {
        None
    }
}

/// What parsing a week string yields: the period strings between commas,
/// parsed from the left until the first that does not parse.
pub open spec fn spec_parse_week_str(s: Seq<char>) -> Seq<Period> {
    spec_take_parsed(spec_split(s, ','))
}

/// The longest parseable prefix of `segs`, parsed.
pub open spec fn spec_take_parsed(segs: Seq<Seq<char>>) -> Seq<Period>
    decreases segs.len(),
{
    if segs.len() == 0 {
        seq![]
    } else {
        match spec_parse_period_str(segs.first()) {
            None => seq![],
            Some(p) => seq![p] + spec_take_parsed(segs.drop_first()),
        }
    }
}

impl Period {
    /// Parse a period string, exactly as [`spec_parse_period_str`] states.
    pub fn parse_period_str(s: &str) -> (r: Option<Period>)
        ensures
            r == spec_parse_period_str(s@),
    {
        let segs = split_char(s, '-');
        proof {
            assert(segs.deep_view() == spec_split(s@, '-'));
            assert(spec_split(s@, '-').len() >= 1);
        }
        let a = match parse_u8(segs[0].as_str()) {
            None => {
                return None;
            },
            Some(v) => v,
        };
        if segs.len() == 1 {
            return Some(Period { start: a, end: a });
        }
        let b = match parse_u8(segs[1].as_str()) {
            None => {
                return Some(Period { start: a, end: a });
            },
            Some(v) => v,
        };
        if segs.len() == 2 {
            return Some(Period { start: a, end: b });
        }
        match parse_u8(segs[2].as_str()) {
            None => Some(Period { start: a, end: b }),
            Some(_) => None,
        }
    }

    /// Parse a week string, exactly as [`spec_parse_week_str`] states.
    pub fn parse_week_str(s: &str) -> (r: Vec<Period>)
        ensures
            r@ == spec_parse_week_str(s@),
    {
        let segs = split_char(s, ',');
        let n = segs.len();
        let mut out: Vec<Period> = Vec::new();
        let mut i: usize = 0;
        proof {
            assert(segs.deep_view().skip(0) =~= segs.deep_view());
        }
        loop
            invariant
                n == segs@.len(),
                n == segs.deep_view().len(),
                i <= n,
                segs.deep_view() == spec_split(s@, ','),
                spec_parse_week_str(s@) == out@ + spec_take_parsed(
                    segs.deep_view().skip(i as int),
                ),
            decreases n - i,
        {
            if i >= n {
                assert(spec_take_parsed(segs.deep_view().skip(i as int)) =~= Seq::<
                    Period,
                >::empty());
                assert(out@ =~= spec_parse_week_str(s@));
                return out;
            }
            assert(segs.deep_view().skip(i as int).first() == segs.deep_view()[i as int]);
            match Period::parse_period_str(segs[i].as_str()) {
                None => {
                    assert(out@ =~= spec_parse_week_str(s@));
                    return out;
                },
                Some(p) => {
                    out.push(p);
                    assert(segs.deep_view().skip(i as int).drop_first() =~= segs.deep_view().skip(
                        i + 1 as int,
                    ));
                    i += 1;
                },
            }
        }
    }
}

/// The notation of a period range: the bare number for a single period,
/// the two numbers joined by `-` for a range.
pub open spec fn spec_period_text(p: Period) -> Seq<char> {
    if p.start == p.end {
        spec_uint_str(p.start as int)
    } else {
        spec_uint_str(p.start as int) + "-"@ + spec_uint_str(p.end as int)
    }
}

impl Period {
    /// Write the range in its notation, exactly as [`spec_period_text`]
    /// states.
    pub fn to_text(&self) -> (r: String)
        ensures
            r@ == spec_period_text(*self),
    {
        if self.start == self.end {
            u16_to_string(self.start as u16)
        } else {
            let mut s = u16_to_string(self.start as u16);
            s.append("-");
            s.append(u16_to_string(self.end as u16).as_str());
            s
        }
    }
}

/// A borrowed-book record of the library service.
#[derive(Debug, Clone, PartialEq, Eq)]
pub struct BookInfo {
    /// The book's id, when the service reports one.
    pub id: Option<u32>,
    /// The title.
    pub title: String,
    /// The call number.
    pub call_no: String,
    /// The holding library's name.
    pub library_name: String,
    /// When the book was borrowed.
    pub borrow_time: String,
    /// When the book is due back, when known.
    pub should_return_time: Option<String>,
    /// Whether the book has been returned.
    pub is_return: bool,
    /// When the book came back, when it did.
    pub return_time: Option<String>,
    /// How many times the loan was renewed.
    pub renew_count: u16,
    /// Whether the loan can be renewed again.
    pub can_renew: bool,
}

} // verus!
