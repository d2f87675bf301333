use chrono::{Datelike, NaiveDate, Timelike};
use netlog::timestamp::Timestamp;

fn has_timestamp_shape(text: &str) -> bool {
    let bytes = text.as_bytes();
    if bytes.len() != 19 {
        return false;
    }
    let digits = [4, 5, 7, 8, 10, 11, 13, 14, 16, 17, 18];
    bytes[0].is_ascii_uppercase()
        && bytes[1].is_ascii_lowercase()
        && bytes[2].is_ascii_lowercase()
        && bytes[3] == b'-'
        && bytes[6] == b' '
        && bytes[9] == b':'
        && bytes[12] == b':'
        && bytes[15] == b'.'
        && digits.iter().all(|&i| bytes[i].is_ascii_digit())
}

#[test]
fn formats_a_morning_in_january() {
    let ts = Timestamp::new(1, 5, 13, 7, 9, 42_000_000).unwrap();
    assert_eq!(ts.format(), "Jan-05 13:07:09.042");
}

#[test]
fn formats_the_last_instant_of_the_year() {
    let ts = Timestamp::new(12, 31, 23, 59, 59, 999_999_999).unwrap();
    assert_eq!(ts.format(), "Dec-31 23:59:59.999");
}

#[test]
fn formats_midnight_with_zero_padding() {
    let ts = Timestamp::new(3, 1, 0, 0, 0, 0).unwrap();
    assert_eq!(ts.format(), "Mar-01 00:00:00.000");
}

#[test]
fn milliseconds_are_truncated_not_rounded() {
    let ts = Timestamp::new(6, 15, 8, 30, 45, 1_999_999).unwrap();
    assert_eq!(ts.format(), "Jun-15 08:30:45.001");
    let ts = Timestamp::new(6, 15, 8, 30, 45, 999_999).unwrap();
    assert_eq!(ts.format(), "Jun-15 08:30:45.000");
    let ts = Timestamp::new(6, 15, 8, 30, 45, 123_999_999).unwrap();
    assert_eq!(ts.format(), "Jun-15 08:30:45.123");
}

#[test]
fn a_leap_second_shows_as_second_sixty() {
    let ts = Timestamp::new(6, 30, 23, 59, 59, 1_250_000_000).unwrap();
    assert_eq!(ts.format(), "Jun-30 23:59:60.250");
}

#[test]
fn every_month_has_its_abbreviation() {
    let names = [
        "Jan", "Feb", "Mar", "Apr", "May", "Jun", "Jul", "Aug", "Sep", "Oct", "Nov", "Dec",
    ];
    for (index, name) in names.iter().enumerate() {
        let ts = Timestamp::new(index as u8 + 1, 9, 1, 2, 3, 4_000_000).unwrap();
        assert_eq!(ts.format(), format!("{}-09 01:02:03.004", name));
    }
}

#[test]
fn rejects_fields_out_of_range() {
    assert!(Timestamp::new(0, 1, 0, 0, 0, 0).is_none());
    assert!(Timestamp::new(13, 1, 0, 0, 0, 0).is_none());
    assert!(Timestamp::new(1, 0, 0, 0, 0, 0).is_none());
    assert!(Timestamp::new(1, 32, 0, 0, 0, 0).is_none());
    assert!(Timestamp::new(1, 1, 24, 0, 0, 0).is_none());
    assert!(Timestamp::new(1, 1, 0, 60, 0, 0).is_none());
    assert!(Timestamp::new(1, 1, 0, 0, 60, 0).is_none());
    assert!(Timestamp::new(1, 1, 0, 0, 0, 2_000_000_000).is_none());
}

#[test]
fn accepts_the_bounds_of_every_field() {
    assert!(Timestamp::new(1, 1, 0, 0, 0, 0).is_some());
    assert!(Timestamp::new(12, 31, 23, 59, 59, 1_999_999_999).is_some());
}

#[test]
fn every_valid_timestamp_has_the_shape() {
    let nanos = [0u32, 1, 999_999, 1_000_000, 500_000_000, 999_999_999, 1_000_000_000, 1_999_999_999];
    for month in 1..=12u8 {
        for day in [1u8, 9, 10, 28, 31] {
            for hour in [0u8, 9, 12, 23] {
                for minute in [0u8, 30, 59] {
                    for second in [0u8, 7, 59] {
                        for nano in nanos.iter() {
                            let ts = Timestamp::new(month, day, hour, minute, second, *nano).unwrap();
                            let text = ts.format();
                            assert!(has_timestamp_shape(&text), "{}", text);
                        }
                    }
                }
            }
        }
    }
}

#[test]
fn agrees_with_chrono_on_sampled_instants() {
    let nanos = [0u32, 1_999_999, 42_000_000, 999_999_999, 1_500_000_000];
    for month in 1..=12u32 {
        for day in [1u32, 15, 28] {
            for hour in [0u32, 11, 23] {
                for minute in [0u32, 59] {
                    for nano in nanos.iter() {
                        let second = 59u32;
                        let naive = NaiveDate::from_ymd_opt(2024, month, day)
                            .unwrap()
                            .and_hms_nano_opt(hour, minute, second, *nano)
                            .unwrap();
                        let expected = naive.format("%b-%d %H:%M:%S%.3f").to_string();
                        let ts = Timestamp::new(
                            month as u8,
                            day as u8,
                            hour as u8,
                            minute as u8,
                            second as u8,
                            *nano,
                        )
                        .unwrap();
                        assert_eq!(ts.format(), expected);
                    }
                }
            }
        }
    }
}

#[test]
fn a_clock_reading_converts_and_formats_as_chrono_does() {
    for _ in 0..50 {
        let now = chrono::Utc::now();
        let ts = Timestamp::new(
            now.month() as u8,
            now.day() as u8,
            now.hour() as u8,
            now.minute() as u8,
            now.second() as u8,
            now.nanosecond(),
        )
        .unwrap();
        let text = ts.format();
        assert!(has_timestamp_shape(&text), "{}", text);
        assert_eq!(text, now.format("%b-%d %H:%M:%S%.3f").to_string());
    }
}
