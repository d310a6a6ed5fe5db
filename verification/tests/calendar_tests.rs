use nocturne_core::calendar::{leap_year, month_offset, parse_date, year_length, Date, MAX_YEAR, MIN_YEAR};
use nocturne_core::error::AppError;

fn ymd(year: i32, month: u32, day: u32) -> Date {
    Date::from_ymd(year, month, day).unwrap()
}

#[test]
fn leap_years_follow_the_gregorian_rule() {
    assert!(leap_year(2028));
    assert!(!leap_year(2027));
    assert!(!leap_year(1900));
    assert!(leap_year(2000));
    assert!(leap_year(-4));
    assert!(!leap_year(-1));
    assert!(leap_year(0));
}

#[test]
fn year_length_is_366_only_in_leap_years() {
    assert_eq!(year_length(2028), 366);
    assert_eq!(year_length(2027), 365);
    assert_eq!(year_length(2100), 365);
    assert_eq!(year_length(2400), 366);
}

#[test]
fn month_offset_counts_the_days_before_a_month() {
    assert_eq!(month_offset(2027, 1), 0);
    assert_eq!(month_offset(2027, 3), 59);
    assert_eq!(month_offset(2028, 3), 60);
    assert_eq!(month_offset(2027, 12), 334);
    assert_eq!(month_offset(2028, 13), 366);
}

#[test]
fn from_ymd_gives_the_ordinal() {
    assert_eq!(ymd(2026, 1, 1), Date { year: 2026, ordinal: 1 });
    assert_eq!(ymd(2026, 3, 5), Date { year: 2026, ordinal: 64 });
    assert_eq!(ymd(2028, 12, 31), Date { year: 2028, ordinal: 366 });
    assert_eq!(ymd(2027, 12, 31), Date { year: 2027, ordinal: 365 });
}

#[test]
fn from_ymd_refuses_days_that_do_not_exist() {
    assert_eq!(Date::from_ymd(2027, 2, 29), None);
    assert!(Date::from_ymd(2028, 2, 29).is_some());
    assert_eq!(Date::from_ymd(2026, 4, 31), None);
    assert_eq!(Date::from_ymd(2026, 13, 1), None);
    assert_eq!(Date::from_ymd(2026, 0, 1), None);
    assert_eq!(Date::from_ymd(2026, 1, 0), None);
    assert_eq!(Date::from_ymd(MAX_YEAR + 1, 1, 1), None);
    assert_eq!(Date::from_ymd(MIN_YEAR - 1, 1, 1), None);
}

#[test]
fn from_ordinal_refuses_days_outside_the_year() {
    assert_eq!(Date::from_ordinal(2027, 366), None);
    assert_eq!(Date::from_ordinal(2028, 366), Some(Date { year: 2028, ordinal: 366 }));
    assert_eq!(Date::from_ordinal(2028, 0), None);
    assert_eq!(Date::from_ordinal(2028, 367), None);
}

#[test]
fn month_and_day_invert_from_ymd() {
    for year in [2027, 2028] {
        for month in 1..=12u32 {
            for day in 1..=31u32 {
                if let Some(date) = Date::from_ymd(year, month, day) {
                    assert_eq!(date.month(), month);
                    assert_eq!(date.day(), day);
                }
            }
        }
    }
}

#[test]
fn month_and_day_of_known_ordinals() {
    let date = Date { year: 2028, ordinal: 60 };
    assert_eq!((date.month(), date.day()), (2, 29));
    let date = Date { year: 2027, ordinal: 60 };
    assert_eq!((date.month(), date.day()), (3, 1));
    let date = Date { year: 2027, ordinal: 365 };
    assert_eq!((date.month(), date.day()), (12, 31));
}

#[test]
fn pred_steps_back_one_day() {
    assert_eq!(ymd(2026, 3, 5).pred(), Some(ymd(2026, 3, 4)));
    assert_eq!(ymd(2026, 3, 1).pred(), Some(ymd(2026, 2, 28)));
    assert_eq!(ymd(2028, 3, 1).pred(), Some(ymd(2028, 2, 29)));
    assert_eq!(ymd(2029, 1, 1).pred(), Some(ymd(2028, 12, 31)));
    assert_eq!(ymd(2028, 1, 1).pred(), Some(ymd(2027, 12, 31)));
}

#[test]
fn pred_ends_at_the_first_supported_day() {
    assert_eq!(Date { year: MIN_YEAR, ordinal: 1 }.pred(), None);
    assert!(Date { year: MIN_YEAR, ordinal: 2 }.pred().is_some());
}

#[test]
fn is_before_orders_by_year_then_day() {
    assert!(ymd(2026, 3, 4).is_before(&ymd(2026, 3, 5)));
    assert!(!ymd(2026, 3, 5).is_before(&ymd(2026, 3, 5)));
    assert!(!ymd(2026, 3, 6).is_before(&ymd(2026, 3, 5)));
    assert!(ymd(2025, 12, 31).is_before(&ymd(2026, 1, 1)));
    assert!(!ymd(2026, 1, 1).is_before(&ymd(2025, 12, 31)));
}

#[test]
fn parse_date_reads_year_month_day() {
    assert_eq!(parse_date("2026-03-05"), Ok(ymd(2026, 3, 5)));
    assert_eq!(parse_date("2028-02-29"), Ok(ymd(2028, 2, 29)));
    assert_eq!(parse_date("2028-12-31"), Ok(Date { year: 2028, ordinal: 366 }));
}

#[test]
fn parse_date_refuses_what_is_no_date() {
    let refused = Err(AppError::Validation("Invalid date".to_string()));
    assert_eq!(parse_date("not a date"), refused);
    assert_eq!(parse_date(""), refused);
    assert_eq!(parse_date("2027-02-29"), refused);
    assert_eq!(parse_date("2026-13-01"), refused);
    assert_eq!(parse_date("2026/03/05"), refused);
    assert_eq!(parse_date("2026-03-05T10:00:00"), refused);
}

#[test]
fn to_iso_string_writes_year_month_day() {
    assert_eq!(ymd(2026, 3, 5).to_iso_string(), "2026-03-05");
    assert_eq!(Date { year: 2028, ordinal: 366 }.to_iso_string(), "2028-12-31");
    assert_eq!(Date { year: 2028, ordinal: 1 }.to_iso_string(), "2028-01-01");
}

#[test]
fn parse_inverts_to_iso_string() {
    for ordinal in 1..=366u32 {
        let date = Date { year: 2028, ordinal };
        assert_eq!(parse_date(&date.to_iso_string()), Ok(date));
    }
}

#[test]
fn iso_week_of_known_days() {
    assert_eq!(ymd(2026, 1, 1).iso_week(), 1);
    assert_eq!(ymd(2027, 1, 1).iso_week(), 53);
    assert_eq!(ymd(2028, 12, 31).iso_week(), 52);
    assert_eq!(ymd(2026, 10, 27).iso_week(), 44);
}

#[test]
fn weekday_counts_from_monday() {
    assert_eq!(ymd(2026, 1, 1).weekday(), 4);
    assert_eq!(ymd(2027, 1, 1).weekday(), 5);
    assert_eq!(ymd(2028, 12, 31).weekday(), 7);
    assert_eq!(ymd(2026, 10, 26).weekday(), 1);
}
