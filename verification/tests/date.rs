use chrono::NaiveDate;
use rpel::date::{opt_date_text, Date, MAX_YEAR, MIN_YEAR};

#[test]
fn date_from_ymd_keeps_year_month_and_day() {
    let date = Date::from_ymd(2024, 2, 29).unwrap();
    assert_eq!(date.year(), 2024);
    assert_eq!(date.month(), 2);
    assert_eq!(date.day(), 29);
}

#[test]
fn date_from_ymd_knows_the_leap_years() {
    assert!(Date::from_ymd(2024, 2, 29).is_some());
    assert!(Date::from_ymd(2023, 2, 29).is_none());
    assert!(Date::from_ymd(2023, 2, 28).is_some());
    assert!(Date::from_ymd(1900, 2, 29).is_none());
    assert!(Date::from_ymd(2000, 2, 29).is_some());
    assert!(Date::from_ymd(0, 2, 29).is_some());
    assert!(Date::from_ymd(-4, 2, 29).is_some());
    assert!(Date::from_ymd(-1, 2, 29).is_none());
    assert!(Date::from_ymd(-100, 2, 29).is_none());
    assert!(Date::from_ymd(-400, 2, 29).is_some());
}

#[test]
fn date_from_ymd_knows_the_lengths_of_the_months() {
    let lengths = [31, 28, 31, 30, 31, 30, 31, 31, 30, 31, 30, 31];
    for (i, length) in lengths.iter().enumerate() {
        let month = i as u32 + 1;
        assert!(Date::from_ymd(2023, month, *length).is_some());
        assert!(Date::from_ymd(2023, month, *length + 1).is_none());
        assert!(Date::from_ymd(2023, month, 0).is_none());
    }
    assert!(Date::from_ymd(2023, 0, 1).is_none());
    assert!(Date::from_ymd(2023, 13, 1).is_none());
}

#[test]
fn date_from_ymd_has_a_first_and_a_last_year() {
    assert_eq!(MIN_YEAR, -262143);
    assert_eq!(MAX_YEAR, 262142);
    assert!(Date::from_ymd(MAX_YEAR, 12, 31).is_some());
    assert!(Date::from_ymd(MAX_YEAR + 1, 1, 1).is_none());
    assert!(Date::from_ymd(MIN_YEAR, 1, 1).is_some());
    assert!(Date::from_ymd(MIN_YEAR - 1, 12, 31).is_none());
    assert!(Date::from_ymd(i32::MAX, 1, 1).is_none());
    assert!(Date::from_ymd(i32::MIN, 1, 1).is_none());
}

#[test]
fn date_from_ymd_has_the_days_that_chrono_has() {
    let years = [MIN_YEAR - 1, MIN_YEAR, -401, -400, -100, -4, -1, 0, 1, 4, 100, 1900, 2000, 2023, 2024, MAX_YEAR, MAX_YEAR + 1];
    for year in years {
        for month in 0..=13 {
            for day in 0..=32 {
                assert_eq!(
                    Date::from_ymd(year, month, day).is_some(),
                    NaiveDate::from_ymd_opt(year, month, day).is_some(),
                    "{year}-{month}-{day}"
                );
            }
        }
    }
}

#[test]
fn date_to_text_pads_with_zeros() {
    assert_eq!(Date::from_ymd(2024, 2, 29).unwrap().to_text(), "2024-02-29");
    assert_eq!(Date::from_ymd(1999, 12, 31).unwrap().to_text(), "1999-12-31");
    assert_eq!(Date::from_ymd(987, 1, 5).unwrap().to_text(), "0987-01-05");
    assert_eq!(Date::from_ymd(5, 10, 9).unwrap().to_text(), "0005-10-09");
    assert_eq!(Date::from_ymd(0, 1, 1).unwrap().to_text(), "0000-01-01");
    assert_eq!(Date::from_ymd(9999, 12, 31).unwrap().to_text(), "9999-12-31");
}

#[test]
fn date_to_text_signs_the_years_outside_four_digits() {
    assert_eq!(Date::from_ymd(10000, 1, 1).unwrap().to_text(), "+10000-01-01");
    assert_eq!(Date::from_ymd(MAX_YEAR, 12, 31).unwrap().to_text(), "+262142-12-31");
    assert_eq!(Date::from_ymd(-1, 12, 31).unwrap().to_text(), "-0001-12-31");
    assert_eq!(Date::from_ymd(-44, 3, 15).unwrap().to_text(), "-0044-03-15");
    assert_eq!(Date::from_ymd(-12345, 6, 7).unwrap().to_text(), "-12345-06-07");
    assert_eq!(Date::from_ymd(MIN_YEAR, 1, 1).unwrap().to_text(), "-262143-01-01");
}

#[test]
fn opt_date_text_is_absent_without_a_date() {
    assert_eq!(opt_date_text(&None), None);
    assert_eq!(
        opt_date_text(&Date::from_ymd(2021, 7, 4)),
        Some(String::from("2021-07-04"))
    );
}

fn written(year: i32, month: u32, day: u32) -> String {
    let year = if (0..=9999).contains(&year) {
        format!("{year:04}")
    } else if year < 0 {
        format!("-{:04}", -(year as i64))
    } else {
        format!("+{year:04}")
    };
    format!("{year}-{month:02}-{day:02}")
}

#[test]
fn date_to_text_is_year_month_and_day_in_digits() {
    let years = [
        MIN_YEAR, -100000, -99999, -10000, -9999, -1000, -999, -100, -99, -10, -9, -1, 0, 1, 9, 10,
        99, 100, 999, 1000, 1582, 2024, 9999, 10000, 99999, 100000, MAX_YEAR,
    ];
    for year in years {
        for month in 1..=12 {
            for day in [1, 2, 9, 10, 11, 19, 20, 28] {
                let date = Date::from_ymd(year, month, day).unwrap();
                assert_eq!(date.to_text(), written(year, month, day));
            }
        }
    }
}
