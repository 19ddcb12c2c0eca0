use st_presence::calendar::{Date, LocalDateTime, TimeOfDay};
use st_presence::formatter::{
    format_back_date, format_back_date_with_time, format_horizon, format_time, push_decimal,
};

fn at(y: i32, mo: u32, d: u32, h: u32, mi: u32) -> LocalDateTime {
    LocalDateTime {
        date: Date::from_ymd(y, mo, d).unwrap(),
        time: TimeOfDay { hour: h, minute: mi, second: 0 },
    }
}

#[test]
fn time_text_drops_zero_minutes() {
    assert_eq!(format_time(&at(2026, 1, 2, 8, 0)), "8am");
    assert_eq!(format_time(&at(2026, 1, 2, 8, 30)), "8:30am");
    assert_eq!(format_time(&at(2026, 1, 2, 0, 0)), "12am");
    assert_eq!(format_time(&at(2026, 1, 2, 12, 0)), "12pm");
    assert_eq!(format_time(&at(2026, 1, 2, 15, 5)), "3:05pm");
    assert_eq!(format_time(&at(2026, 1, 2, 23, 59)), "11:59pm");
    assert_eq!(format_time(&at(2026, 1, 2, 10, 0)), "10am");
}

#[test]
fn seven_days_out_is_a_weekday_eight_is_month_day() {
    let today = Date::from_ymd(2025, 12, 20).unwrap();
    assert_eq!(format_horizon(&at(2025, 12, 27, 7, 0), &today, false), "Back Saturday.");
    assert_eq!(format_horizon(&at(2025, 12, 28, 7, 0), &today, false), "Back 12/28.");
    assert_eq!(format_horizon(&at(2025, 12, 27, 7, 0), &today, true), "Back Saturday 7am.");
    assert_eq!(format_horizon(&at(2026, 1, 2, 9, 30), &today, true), "Back 1/2 9:30am.");
}

#[test]
fn every_weekday_has_its_name() {
    let today = Date::from_ymd(2025, 12, 14).unwrap();
    let names = ["Monday", "Tuesday", "Wednesday", "Thursday", "Friday", "Saturday", "Sunday"];
    for (i, name) in names.iter().enumerate() {
        let when = at(2025, 12, 15 + i as u32, 7, 0);
        assert_eq!(format_back_date(&when, &today), format!("Back {}.", name));
    }
}

#[test]
fn past_dates_use_the_weekday() {
    let today = Date::from_ymd(2025, 12, 20).unwrap();
    assert_eq!(format_back_date(&at(2025, 3, 10, 7, 0), &today), "Back Monday.");
    assert_eq!(format_back_date_with_time(&at(2025, 12, 20, 13, 15), &today), "Back Saturday 1:15pm.");
}

#[test]
fn decimal_text_has_no_leading_zeros() {
    for n in [0u32, 7, 10, 12, 99, 100, 2026, u32::MAX] {
        let mut out = String::from("x");
        push_decimal(&mut out, n);
        assert_eq!(out, format!("x{}", n));
    }
}
