//! Course-service data models and the parsing they carry: term names,
//! weekday-and-period slots, and the enrollment timetable notation.

use vstd::prelude::*;

use crate::datetimes::{parse_weekday, spec_parse_weekday};
use crate::errors::{ApiError, MyCQUResult};
use crate::models::{spec_parse_week_str, Period};
use crate::strutil::{
    all_digits, digit_val, digits_val, find_char, is_digit, lemma_digits_val_upper,
    lemma_spec_find_char_some, parse_u16, pow10, rfind_char, spec_find_char, spec_rfind_char,
    spec_trim, spec_uint_str, substring, trim, u16_to_string, lemma_spec_rfind_char_some,
};

verus! {

/// A weekday-and-period slot of a course.
#[derive(Debug, Clone, Copy, PartialEq, Eq, Structural)]
pub struct CourseDayTime {
    /// The weekday: 0 is Monday, 6 is Sunday.
    pub weekday: u8,
    /// The period range within the day.
    pub period: Period,
}

/// The one-character notation of a weekday.
pub open spec fn spec_short_weekday_str(d: u8) -> Seq<char> {
    if d == 0 {
        "一"@
    } else if d == 1 {
        "二"@
    } else if d == 2 {
        "三"@
    } else if d == 3 {
        "四"@
    } else if d == 4 {
        "五"@
    } else if d == 5 {
        "六"@
    } else {
        "日"@
    }
}

/// The three-character notation of a weekday.
pub open spec fn spec_long_weekday_str(d: u8) -> Seq<char> {
    if d == 0 {
        "星期一"@
    } else if d == 1 {
        "星期二"@
    } else if d == 2 {
        "星期三"@
    } else if d == 3 {
        "星期四"@
    } else if d == 4 {
        "星期五"@
    } else if d == 5 {
        "星期六"@
    } else {
        "星期日"@
    }
}

impl CourseDayTime {
    /// The slot's weekday in its short notation.
    pub fn short_weekday(&self) -> (r: &'static str)
        requires
            self.weekday <= 6,
        ensures
            r@ == spec_short_weekday_str(self.weekday),
    {
        if self.weekday == 0 {
            "一"
        } else if self.weekday == 1 {
            "二"
        } else if self.weekday == 2 {
            "三"
        } else if self.weekday == 3 {
            "四"
        } else if self.weekday == 4 {
            "五"
        } else if self.weekday == 5 {
            "六"
        } else {
            "日"
        }
    }

    /// The slot's weekday in its long notation.
    pub fn long_weekday(&self) -> (r: &'static str)
        requires
            self.weekday <= 6,
        ensures
            r@ == spec_long_weekday_str(self.weekday),
    {
        if self.weekday == 0 {
            "星期一"
        } else if self.weekday == 1 {
            "星期二"
        } else if self.weekday == 2 {
            "星期三"
        } else if self.weekday == 3 {
            "星期四"
        } else if self.weekday == 4 {
            "星期五"
        } else if self.weekday == 5 {
            "星期六"
        } else {
            "星期日"
        }
    }
}

/// One term of the university's calendar.
#[derive(Debug, Clone, PartialEq, Eq)]
pub struct CQUSession {
    /// The term's id, when known.
    pub id: Option<u16>,
    /// The calendar year the term runs in.
    pub year: u16,
    /// Whether it is the autumn term.
    pub is_autumn: bool,
}

/// What parsing a term name yields: four digits, an optional year mark, and
/// the season character; anything else is rejected.
pub open spec fn spec_parse_cqu_session(s: Seq<char>) -> Option<CQUSession> {
    if s.len() == 5 && all_digits(s.subrange(0, 4)) && (s[4] == '春' || s[4] == '秋') {
        Some(
            CQUSession {
                id: None,
                year: digits_val(s.subrange(0, 4)) as u16,
                is_autumn: s[4] == '秋',
            },
        )
    } else if s.len() == 6 && all_digits(s.subrange(0, 4)) && s[4] == '年' && (s[5] == '春'
        || s[5] == '秋') {
        Some(
            CQUSession {
                id: None,
                year: digits_val(s.subrange(0, 4)) as u16,
                is_autumn: s[5] == '秋',
            },
        )
    } else {
        None
    }
}

impl CQUSession {
    /// Parse a term name, exactly as [`spec_parse_cqu_session`] states; a
    /// rejected name cannot be read as the expected model.
    pub fn parse_str(s: &str) -> (r: MyCQUResult<CQUSession>)
        ensures
            r is Ok <==> spec_parse_cqu_session(s@) is Some,
            r matches Ok(session) ==> Some(session) == spec_parse_cqu_session(s@),
            r matches Err(e) ==> e matches ApiError::ModelParse { msg } && msg@
                == "CQUSession parse error"@,
    {
        let n = s.unicode_len();
        if n != 5 && n != 6 {
            return Err(ApiError::ModelParse { msg: "CQUSession parse error".to_owned() });
        }
        let year_digits = substring(s, 0, 4);
        let year = match parse_u16(year_digits.as_str()) {
            None => {
                proof {
                    if all_digits(s@.subrange(0, 4)) {
                        lemma_digits_val_upper(s@.subrange(0, 4));
                        assert(pow10(0) == 1);
                        assert(pow10(1) == 10);
                        assert(pow10(2) == 100);
                        assert(pow10(3) == 1000);
                        assert(pow10(4) == 10000);
                    }
                }
                return Err(ApiError::ModelParse { msg: "CQUSession parse error".to_owned() });
            },
            Some(v) => v,
        };
        if n == 6 && s.get_char(4) != '年' {
            return Err(ApiError::ModelParse { msg: "CQUSession parse error".to_owned() });
        }
        let season = s.get_char(n - 1);
        if season == '春' || season == '秋' {
            Ok(CQUSession { id: None, year, is_autumn: season == '秋' })
        } else {
            Err(ApiError::ModelParse { msg: "CQUSession parse error".to_owned() })
        }
    }
}

/// The notation of a term name: the year's digits, then the season
/// character.
pub open spec fn spec_session_text(s: CQUSession) -> Seq<char> {
    spec_uint_str(s.year as int) + (if s.is_autumn {
        "秋"@
    } else {
        "春"@
    })
}

impl CQUSession {
    /// Write the term name in its notation, exactly as
    /// [`spec_session_text`] states.
    pub fn to_text(&self) -> (r: String)
        ensures
            r@ == spec_session_text(*self),
    {
        let mut s = u16_to_string(self.year);
        if self.is_autumn {
            s.append("秋");
        } else {
            s.append("春");
        }
        s
    }
}

/// The details of one term.
#[derive(Debug, Clone, PartialEq, Eq)]
pub struct CQUSessionInfo {
    /// The term itself.
    pub session: CQUSession,
    /// The term's first day, as the service writes it, when reported.
    pub begin_date_str: Option<String>,
    /// The term's last day, as the service writes it, when reported.
    pub end_date_str: Option<String>,
    /// Whether this is the currently active term.
    pub active: bool,
}

/// One slot of an enrollable course's timetable.
#[derive(Debug, Clone, PartialEq, Eq)]
pub struct EnrollCourseTimetable {
    /// The teaching weeks.
    pub weeks: Vec<Period>,
    /// The weekday-and-period slot, when the notation carries one.
    pub time: Option<CourseDayTime>,
    /// The room, when the notation carries one.
    pub pos: Option<String>,
}

/// The weeks of one timetable item: the text before the last week mark on
/// the item's first line, read as a week string; no mark means no weeks.
pub open spec fn spec_item_weeks(item: Seq<char>) -> Seq<Period> {
    let line_end = match spec_find_char(item, '\n', 0) {
        None => item.len() as int,
        Some(j) => j,
    };
    match spec_rfind_char(item, '周', 0, line_end) {
        None => seq![],
        Some(k) => spec_parse_week_str(item.subrange(0, k)),
    }
}

/// A weekday-and-period notation stands in `s` at `i`: the two day-mark
/// characters, any character but a line break, a space, then
/// `digit-digit` closed by the two period-mark characters.
pub open spec fn time_match_at(s: Seq<char>, i: int) -> bool {
    &&& 0 <= i
    &&& i + 9 <= s.len()
    &&& s[i] == '星'
    &&& s[i + 1] == '期'
    &&& s[i + 2] != '\n'
    &&& s[i + 3] == ' '
    &&& is_digit(s[i + 4])
    &&& s[i + 5] == '-'
    &&& is_digit(s[i + 6])
    &&& s[i + 7] == '小'
    &&& s[i + 8] == '节'
}

/// The first position at or after `from` where a weekday-and-period
/// notation stands.
pub open spec fn spec_find_time(s: Seq<char>, from: int) -> Option<int>
    decreases s.len() - from + 1,
{
    if from < 0 {
        spec_find_time(s, 0)
    } else if from >= s.len() {
        None
    } else if time_match_at(s, from) {
        Some(from)
    } else {
        spec_find_time(s, from + 1)
    }
}

/// The slot of one timetable item: at the first weekday-and-period
/// notation, the day character read as a weekday and the two digits as the
/// period range; an unreadable day character means no slot.
pub open spec fn spec_item_time(item: Seq<char>) -> Option<CourseDayTime> {
    match spec_find_time(item, 0) {
        None => None,
        Some(i) => match spec_parse_weekday(seq![item[i + 2]]) {
            None => None,
            Some(w) => Some(
                CourseDayTime {
                    weekday: w,
                    period: Period {
                        start: digit_val(item[i + 4]) as u8,
                        end: digit_val(item[i + 6]) as u8,
                    },
                },
            ),
        },
    }
}

/// The first position at or after `from` of a room mark that no line break
/// follows.
pub open spec fn spec_find_tail_amp(s: Seq<char>, from: int) -> Option<int>
    decreases s.len() - from + 1,
{
    if from < 0 {
        spec_find_tail_amp(s, 0)
    } else if from >= s.len() {
        None
    } else if s[from] == '&' && spec_find_char(s, '\n', from + 1) is None {
        Some(from)
    } else {
        spec_find_tail_amp(s, from + 1)
    }
}

/// The room of one timetable item: everything after the first room mark
/// that no line break follows, trimmed; no such mark means no room.
pub open spec fn spec_item_pos(item: Seq<char>) -> Option<Seq<char>> {
    match spec_find_tail_amp(item, 0) {
        None => None,
        Some(i) => Some(spec_trim(item.subrange(i + 1, item.len() as int))),
    }
}

/// `t` is what the timetable item `item` parses to.
pub open spec fn spec_item_matches(t: EnrollCourseTimetable, item: Seq<char>) -> bool {
    &&& t.weeks@ == spec_item_weeks(item)
    &&& t.time == spec_item_time(item)
    &&& match spec_item_pos(item) {
        None => t.pos is None,
        Some(p) => t.pos matches Some(q) && q@ == p,
    }
}

proof fn lemma_spec_find_time_some(s: Seq<char>, from: int, i: int)
    requires
        spec_find_time(s, from) == Some(i),
    ensures
        time_match_at(s, i),
    decreases s.len() - from + 1,
{
    if from < 0 {
        lemma_spec_find_time_some(s, 0, i);
    } else if from >= s.len() {
    } else if time_match_at(s, from) {
    } else {
        lemma_spec_find_time_some(s, from + 1, i);
    }
}

proof fn lemma_spec_find_tail_amp_some(s: Seq<char>, from: int, i: int)
    requires
        spec_find_tail_amp(s, from) == Some(i),
    ensures
        0 <= i < s.len(),
        s[i] == '&',
        spec_find_char(s, '\n', i + 1) is None,
    decreases s.len() - from + 1,
{
    if from < 0 {
        lemma_spec_find_tail_amp_some(s, 0, i);
    } else if from >= s.len() {
    } else if s[from] == '&' && spec_find_char(s, '\n', from + 1) is None {
    } else {
        lemma_spec_find_tail_amp_some(s, from + 1, i);
    }
}

fn time_match_exec(s: &str, i: usize) -> (r: bool)
    requires
        s@.len() <= usize::MAX,
    ensures
        r == time_match_at(s@, i as int),
{
    let n = s.unicode_len();
    if n < 9 || i > n - 9 {
        return false;
    }
    let c2 = s.get_char(i + 2);
    let d4 = s.get_char(i + 4) as u32;
    let d6 = s.get_char(i + 6) as u32;
    s.get_char(i) == '星' && s.get_char(i + 1) == '期' && c2 != '\n' && s.get_char(i + 3) == ' '
        && 48 <= d4 && d4 <= 57 && s.get_char(i + 5) == '-' && 48 <= d6 && d6 <= 57 && s.get_char(
        i + 7,
    ) == '小' && s.get_char(i + 8) == '节'
}

fn find_time(s: &str) -> (r: Option<usize>)
    ensures
        r is Some <==> spec_find_time(s@, 0) is Some,
        r matches Some(i) ==> spec_find_time(s@, 0) == Some(i as int),
{
    let n = s.unicode_len();
    let mut cur: usize = 0;
    loop
        invariant
            n == s@.len(),
            cur <= n,
            spec_find_time(s@, 0) == spec_find_time(s@, cur as int),
        decreases n - cur,
    {
        if cur >= n {
            return None;
        }
        if time_match_exec(s, cur) {
            return Some(cur);
        }
        cur += 1;
    }
}

fn item_time(item: &str) -> (r: Option<CourseDayTime>)
    ensures
        r == spec_item_time(item@),
{
    let n = item.unicode_len();
    let i = match find_time(item) {
        None => {
            return None;
        },
        Some(v) => v,
    };
    proof {
        lemma_spec_find_time_some(item@, 0, i as int);
    }
    let day = substring(item, i + 2, i + 3);
    assert(day@ =~= seq![item@[i + 2]]);
    let w = match parse_weekday(day.as_str()) {
        None => {
            return None;
        },
        Some(v) => v,
    };
    let start = (item.get_char(i + 4) as u32 - 48) as u8;
    let end = (item.get_char(i + 6) as u32 - 48) as u8;
    Some(CourseDayTime { weekday: w, period: Period { start, end } })
}

fn find_tail_amp(s: &str) -> (r: Option<usize>)
    ensures
        r is Some <==> spec_find_tail_amp(s@, 0) is Some,
        r matches Some(i) ==> spec_find_tail_amp(s@, 0) == Some(i as int),
{
    let n = s.unicode_len();
    let mut cur: usize = 0;
    loop
        invariant
            n == s@.len(),
            cur <= n,
            spec_find_tail_amp(s@, 0) == spec_find_tail_amp(s@, cur as int),
        decreases n - cur,
    {
        if cur >= n {
            return None;
        }
        if s.get_char(cur) == '&' {
            match find_char(s, '\n', cur + 1) {
                None => {
                    return Some(cur);
                },
                Some(_) => (),
            }
        }
        cur += 1;
    }
}

fn parse_timetable_item(item: &str) -> (r: EnrollCourseTimetable)
    ensures
        spec_item_matches(r, item@),
{
    let n = item.unicode_len();
    let line_end = match find_char(item, '\n', 0) {
        None => n,
        Some(j) => {
            proof {
                lemma_spec_find_char_some(item@, '\n', 0, j as int);
            }
            j
        },
    };
    let weeks = match rfind_char(item, '周', 0, line_end) {
        None => Vec::new(),
        Some(k) => {
            proof {
                lemma_spec_rfind_char_some(item@, '周', 0, line_end as int, k as int);
            }
            let head = substring(item, 0, k);
            Period::parse_week_str(head.as_str())
        },
    };
    let time = item_time(item);
    let pos = match find_tail_amp(item) {
        None => None,
        Some(i) => {
            proof {
                lemma_spec_find_tail_amp_some(item@, 0, i as int);
            }
            let tail = substring(item, i + 1, n);
            Some(trim(tail.as_str()))
        },
    };
    let r = EnrollCourseTimetable { weeks, time, pos };
    assert(r.weeks@ =~= spec_item_weeks(item@));
    r
}

impl EnrollCourseTimetable {
    /// Parse the enrollment timetable notation: one item per `;`-separated
    /// segment, each read for its weeks, its slot and its room as
    /// [`spec_item_matches`] states.
    pub fn parse_timetable_str(data: &str) -> (r: Vec<EnrollCourseTimetable>)
        ensures
            r@.len() == crate::strutil::spec_split(data@, ';').len(),
            forall|i: int|
                0 <= i < r@.len() ==> spec_item_matches(
                    #[trigger] r@[i],
                    crate::strutil::spec_split(data@, ';')[i],
                ),
    {
        let items = crate::strutil::split_char(data, ';');
        let n = items.len();
        let mut out: Vec<EnrollCourseTimetable> = Vec::new();
        let mut i: usize = 0;
        while i < n
            invariant
                n == items@.len(),
                n == items.deep_view().len(),
                i <= n,
                out@.len() == i,
                items.deep_view() == crate::strutil::spec_split(data@, ';'),
                forall|k: int|
                    0 <= k < i ==> spec_item_matches(
                        #[trigger] out@[k],
                        items.deep_view()[k],
                    ),
            decreases n - i,
        {
            let t = parse_timetable_item(items[i].as_str());
            out.push(t);
            i += 1;
        }
        out
    }
}

} // verus!
