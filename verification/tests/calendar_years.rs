use chrono::Datelike;
use railway::calendar::year_of;
use railway::utility::{TimeOfDay, Utility};

fn chrono_year(days: i32) -> Option<i32> {
    chrono::NaiveDate::from_num_days_from_ce_opt(days).map(|d| d.year())
}

#[test]
fn years_agree_with_the_calendar() {
    let mut days: Vec<i32> = vec![
        1, 0, -1, 365, 366, 730_000, 738_000, 95_000_000, -95_000_000, 100_000_000, -100_000_000,
        i32::MAX, i32::MIN, i32::MAX - 365, i32::MAX - 364,
    ];
    for k in -2000..2000 {
        days.push(k * 365 + (k % 7));
        days.push(719_163 + k * 146_097 / 400);
    }
    for y in [-262_143, -262_142, 262_141, 262_142] {
        let first = chrono::NaiveDate::from_ymd_opt(y, 1, 1).unwrap().num_days_from_ce();
        let last = chrono::NaiveDate::from_ymd_opt(y, 12, 31).unwrap().num_days_from_ce();
        days.extend([first - 1, first, first + 1, last - 1, last, last + 1]);
    }
    for d in days {
        assert_eq!(year_of(d), chrono_year(d), "day {}", d);
    }
    assert_eq!(year_of(1), Some(1));
    assert_eq!(year_of(0), Some(0));
    assert_eq!(year_of(100_000_000), None);
}

#[test]
fn clock_is_two_digits_each() {
    assert_eq!(Utility::format_clock(&TimeOfDay { hour: 14, minute: 5, second: 59 }), "14:05");
    assert_eq!(Utility::format_clock(&TimeOfDay { hour: 0, minute: 0, second: 0 }), "00:00");
    assert_eq!(Utility::format_clock(&TimeOfDay { hour: 9, minute: 30, second: 1 }), "09:30");
}
