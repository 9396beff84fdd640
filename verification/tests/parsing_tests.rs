use rsmycqu::course::{CQUSession, CourseDayTime, EnrollCourseTimetable};
use rsmycqu::datetimes::{parse_long_weekday, parse_short_weekday, parse_weekday};
use rsmycqu::errors::ApiError;
use rsmycqu::models::Period;
use rsmycqu::strutil::u16_to_string;

#[test]
fn period_parses_single_and_range() {
    assert_eq!(
        Period::parse_period_str("7"),
        Some(Period { start: 7, end: 7 })
    );
    assert_eq!(
        Period::parse_period_str("3-5"),
        Some(Period { start: 3, end: 5 })
    );
    assert_eq!(Period::parse_period_str("3-4-5"), None);
    assert_eq!(Period::parse_period_str("x"), None);
    assert_eq!(Period::parse_period_str(""), None);
    // Segments after the first unreadable one are dropped, as a
    // take-while-parsed reading demands.
    assert_eq!(
        Period::parse_period_str("3-x"),
        Some(Period { start: 3, end: 3 })
    );
}

#[test]
fn week_string_stops_at_the_first_bad_segment() {
    assert_eq!(
        Period::parse_week_str("1-5,7-9"),
        vec![Period { start: 1, end: 5 }, Period { start: 7, end: 9 }]
    );
    assert_eq!(
        Period::parse_week_str("1-5,zz,7-9"),
        vec![Period { start: 1, end: 5 }]
    );
    assert_eq!(Period::parse_week_str(""), Vec::<Period>::new());
}

#[test]
fn weekdays_parse_in_both_notations() {
    assert_eq!(parse_short_weekday("一"), Some(0));
    assert_eq!(parse_short_weekday("日"), Some(6));
    assert_eq!(parse_short_weekday("星期一"), None);
    assert_eq!(parse_long_weekday("星期一"), Some(0));
    assert_eq!(parse_long_weekday("星期日"), Some(6));
    assert_eq!(parse_long_weekday("一"), None);
    assert_eq!(parse_weekday("三"), Some(2));
    assert_eq!(parse_weekday("星期六"), Some(5));
    assert_eq!(parse_weekday("monday"), None);
}

#[test]
fn weekday_notations_print_back() {
    let slot = CourseDayTime { weekday: 0, period: Period { start: 1, end: 2 } };
    assert_eq!(slot.short_weekday(), "一");
    assert_eq!(slot.long_weekday(), "星期一");
    let sunday = CourseDayTime { weekday: 6, period: Period { start: 1, end: 1 } };
    assert_eq!(sunday.short_weekday(), "日");
    assert_eq!(sunday.long_weekday(), "星期日");
}

#[test]
fn term_names_parse_with_and_without_the_year_mark() {
    assert_eq!(
        CQUSession::parse_str("2023年秋").unwrap(),
        CQUSession { id: None, year: 2023, is_autumn: true }
    );
    assert_eq!(
        CQUSession::parse_str("2023秋").unwrap(),
        CQUSession { id: None, year: 2023, is_autumn: true }
    );
    assert_eq!(
        CQUSession::parse_str("2023年春").unwrap(),
        CQUSession { id: None, year: 2023, is_autumn: false }
    );
    assert!(matches!(
        CQUSession::parse_str("abced"),
        Err(ApiError::ModelParse { .. })
    ));
    assert!(matches!(
        CQUSession::parse_str("23秋"),
        Err(ApiError::ModelParse { .. })
    ));
    assert!(matches!(
        CQUSession::parse_str("2023年冬"),
        Err(ApiError::ModelParse { .. })
    ));
}

#[test]
fn timetable_string_parses_both_items() {
    let timetable_str = "1-5,7-9周 星期二 6-7小节 &D1144 ;1-5,7-9周 星期五 3-4小节 &D1143 ";
    let timetable = EnrollCourseTimetable::parse_timetable_str(timetable_str);
    assert_eq!(timetable.len(), 2);
    assert_eq!(
        timetable[0],
        EnrollCourseTimetable {
            weeks: vec![Period { start: 1, end: 5 }, Period { start: 7, end: 9 }],
            time: Some(CourseDayTime { weekday: 1, period: Period { start: 6, end: 7 } }),
            pos: Some("D1144".to_string()),
        }
    );
    assert_eq!(
        timetable[1],
        EnrollCourseTimetable {
            weeks: vec![Period { start: 1, end: 5 }, Period { start: 7, end: 9 }],
            time: Some(CourseDayTime { weekday: 4, period: Period { start: 3, end: 4 } }),
            pos: Some("D1143".to_string()),
        }
    );
}

#[test]
fn timetable_item_parts_are_each_optional() {
    let bare = EnrollCourseTimetable::parse_timetable_str("nothing here");
    assert_eq!(bare.len(), 1);
    assert_eq!(bare[0].weeks, Vec::<Period>::new());
    assert_eq!(bare[0].time, None);
    assert_eq!(bare[0].pos, None);
    // An unreadable day character leaves the slot out.
    let odd = EnrollCourseTimetable::parse_timetable_str("1-2周 星期x 6-7小节");
    assert_eq!(odd[0].weeks, vec![Period { start: 1, end: 2 }]);
    assert_eq!(odd[0].time, None);
}

#[test]
fn numbers_print_in_decimal() {
    assert_eq!(u16_to_string(0), "0");
    assert_eq!(u16_to_string(302), "302");
    assert_eq!(u16_to_string(65535), "65535");
}

#[test]
fn periods_and_terms_print_their_notation() {
    assert_eq!(Period { start: 3, end: 3 }.to_text(), "3");
    assert_eq!(Period { start: 3, end: 5 }.to_text(), "3-5");
    let term = CQUSession { id: None, year: 2023, is_autumn: true };
    assert_eq!(term.to_text(), "2023秋");
    let spring = CQUSession { id: None, year: 2024, is_autumn: false };
    assert_eq!(spring.to_text(), "2024春");
}
