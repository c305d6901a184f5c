use typst_py::clock::{date_at, utc_datetime, utc_now, Date, DateTime, Instant};
use typst_py::text::{digit_text, push_decimal};

fn at(utc_seconds: i64, offset_seconds: i32) -> Instant {
    Instant { utc_seconds, offset_seconds }
}

#[test]
fn date_of_the_epoch() {
    assert_eq!(date_at(at(0, 0), None), Some(Date { year: 1970, month: 1, day: 1 }));
    assert_eq!(date_at(at(0, 0), Some(0)), Some(Date { year: 1970, month: 1, day: 1 }));
    assert_eq!(date_at(at(-1, 0), None), Some(Date { year: 1969, month: 12, day: 31 }));
}

#[test]
fn date_of_a_known_instant() {
    let now = at(1_431_648_000, 0);
    assert_eq!(date_at(now, None), Some(Date { year: 2015, month: 5, day: 15 }));
    assert_eq!(date_at(now, Some(5)), Some(Date { year: 2015, month: 5, day: 15 }));
    assert_eq!(date_at(now, Some(24)), Some(Date { year: 2015, month: 5, day: 16 }));
    assert_eq!(date_at(now, Some(-1)), Some(Date { year: 2015, month: 5, day: 14 }));
}

#[test]
fn local_date_uses_the_sampled_offset() {
    let evening = at(1_431_648_000 + 23 * 3600, 2 * 3600);
    assert_eq!(date_at(evening, None), Some(Date { year: 2015, month: 5, day: 16 }));
    assert_eq!(date_at(evening, Some(0)), Some(Date { year: 2015, month: 5, day: 15 }));
    let west = at(1_431_648_000, -3600);
    assert_eq!(date_at(west, None), Some(Date { year: 2015, month: 5, day: 14 }));
    assert_eq!(date_at(west, Some(0)), Some(Date { year: 2015, month: 5, day: 15 }));
}

#[test]
fn offset_ignores_the_local_offset() {
    let a = at(1_700_000_000, 0);
    let b = at(1_700_000_000, 12 * 3600);
    for hours in [-30, -1, 0, 1, 13, 48] {
        assert_eq!(date_at(a, Some(hours)), date_at(b, Some(hours)));
    }
}

#[test]
fn leap_day_is_found() {
    assert_eq!(date_at(at(1_709_164_800, 0), None), Some(Date { year: 2024, month: 2, day: 29 }));
    assert_eq!(
        date_at(at(1_709_164_800, 0), Some(24)),
        Some(Date { year: 2024, month: 3, day: 1 })
    );
}

#[test]
fn unrepresentable_dates_are_none() {
    assert_eq!(date_at(at(i64::MAX, 0), None), None);
    assert_eq!(date_at(at(i64::MAX, 1), None), None);
    assert_eq!(date_at(at(i64::MIN, -1), None), None);
    assert_eq!(date_at(at(0, 0), Some(i64::MAX)), None);
    assert_eq!(date_at(at(0, 0), Some(i64::MIN)), None);
    assert_eq!(date_at(at(i64::MAX, 0), Some(1)), None);
}

#[test]
fn decimal_text_of_numbers() {
    let mut out = String::from("n=");
    push_decimal(&mut out, 0);
    assert_eq!(out, "n=0");
    let mut out = String::new();
    push_decimal(&mut out, 7);
    push_decimal(&mut out, 10);
    push_decimal(&mut out, 1234567890);
    assert_eq!(out, "7101234567890");
    let mut out = String::new();
    push_decimal(&mut out, u64::MAX);
    assert_eq!(out, "18446744073709551615");
}

#[test]
fn digit_text_of_each_digit() {
    let all: Vec<&str> = (0..10).map(digit_text).collect();
    assert_eq!(all, vec!["0", "1", "2", "3", "4", "5", "6", "7", "8", "9"]);
}

#[test]
fn utc_datetime_of_known_instants() {
    assert_eq!(
        utc_datetime(at(1_431_648_000 + 13 * 3600 + 7 * 60 + 42, 7200)),
        Some(DateTime {
            date: Date { year: 2015, month: 5, day: 15 },
            hour: 13,
            minute: 7,
            second: 42
        })
    );
    assert_eq!(
        utc_datetime(at(0, 0)),
        Some(DateTime { date: Date { year: 1970, month: 1, day: 1 }, hour: 0, minute: 0, second: 0 })
    );
    assert_eq!(
        utc_datetime(at(-1, 0)),
        Some(DateTime {
            date: Date { year: 1969, month: 12, day: 31 },
            hour: 23,
            minute: 59,
            second: 59
        })
    );
    assert_eq!(
        utc_datetime(at(-86_400, 0)),
        Some(DateTime {
            date: Date { year: 1969, month: 12, day: 31 },
            hour: 0,
            minute: 0,
            second: 0
        })
    );
    assert_eq!(
        utc_datetime(at(-86_401, 0)),
        Some(DateTime {
            date: Date { year: 1969, month: 12, day: 30 },
            hour: 23,
            minute: 59,
            second: 59
        })
    );
    assert_eq!(utc_datetime(at(i64::MAX, 0)), None);
    assert_eq!(utc_datetime(at(i64::MIN, 0)), None);
}

#[test]
fn utc_now_is_a_time_of_day() {
    let now = utc_now().unwrap();
    assert!(now.date.year >= 2024);
    assert!(now.hour < 24);
    assert!(now.minute < 60);
    assert!(now.second < 60);
}
