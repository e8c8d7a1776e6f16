use isucari::datetime::{NaiveDateTime, PrimitiveDateTime, MAX_TIMESTAMP, MIN_TIMESTAMP};

fn timestamp(year: i32, month: u8, day: u8, hour: u8, minute: u8, second: u8) -> i64 {
    PrimitiveDateTime::new(year, month, day, hour, minute, second, 0).unwrap().timestamp()
}

#[test]
fn timestamps_of_stored_moments() {
    assert_eq!(timestamp(1970, 1, 1, 0, 0, 0), 0);
    assert_eq!(timestamp(1969, 12, 31, 23, 59, 59), -1);
    assert_eq!(timestamp(2000, 2, 29, 12, 0, 0), 951_825_600);
    assert_eq!(timestamp(2019, 1, 1, 0, 0, 0), 1_546_300_800);
    assert_eq!(timestamp(2038, 1, 19, 3, 14, 8), 2_147_483_648);
    assert_eq!(timestamp(1, 1, 1, 0, 0, 0), -62_135_596_800);
    assert_eq!(timestamp(-1, 3, 1, 0, 0, 0), -62_193_657_600);
}

#[test]
fn fraction_of_a_second_is_left_out() {
    let t = PrimitiveDateTime::new(1969, 12, 31, 23, 59, 59, 999_999_999).unwrap();
    assert_eq!(t.timestamp(), -1);
}

#[test]
fn impossible_moments() {
    assert!(PrimitiveDateTime::new(2019, 2, 29, 0, 0, 0, 0).is_none());
    assert!(PrimitiveDateTime::new(1900, 2, 29, 0, 0, 0, 0).is_none());
    assert!(PrimitiveDateTime::new(2000, 2, 29, 0, 0, 0, 0).is_some());
    assert!(PrimitiveDateTime::new(2020, 2, 29, 0, 0, 0, 0).is_some());
    assert!(PrimitiveDateTime::new(2019, 0, 1, 0, 0, 0, 0).is_none());
    assert!(PrimitiveDateTime::new(2019, 13, 1, 0, 0, 0, 0).is_none());
    assert!(PrimitiveDateTime::new(2019, 4, 31, 0, 0, 0, 0).is_none());
    assert!(PrimitiveDateTime::new(2019, 4, 0, 0, 0, 0, 0).is_none());
    assert!(PrimitiveDateTime::new(2019, 1, 1, 24, 0, 0, 0).is_none());
    assert!(PrimitiveDateTime::new(2019, 1, 1, 0, 60, 0, 0).is_none());
    assert!(PrimitiveDateTime::new(2019, 1, 1, 0, 0, 60, 0).is_none());
    assert!(PrimitiveDateTime::new(2019, 1, 1, 0, 0, 0, 1_000_000_000).is_none());
    assert!(PrimitiveDateTime::new(100_001, 1, 1, 0, 0, 0, 0).is_none());
    assert!(PrimitiveDateTime::new(-100_001, 1, 1, 0, 0, 0, 0).is_none());
    assert!(PrimitiveDateTime::new(100_000, 12, 31, 23, 59, 59, 0).is_some());
    assert!(PrimitiveDateTime::new(-100_000, 1, 1, 0, 0, 0, 0).is_some());
}

#[test]
fn moments_of_timestamps() {
    assert_eq!(
        NaiveDateTime::from_timestamp(1_566_345_598),
        Some(NaiveDateTime { year: 2019, month: 8, day: 20, hour: 23, minute: 59, second: 58 })
    );
    assert_eq!(
        NaiveDateTime::from_timestamp(-1),
        Some(NaiveDateTime { year: 1969, month: 12, day: 31, hour: 23, minute: 59, second: 59 })
    );
}

#[test]
fn range_of_timestamps() {
    assert_eq!(
        NaiveDateTime::from_timestamp(MAX_TIMESTAMP),
        Some(NaiveDateTime { year: 262_142, month: 12, day: 31, hour: 23, minute: 59, second: 59 })
    );
    assert_eq!(
        NaiveDateTime::from_timestamp(MIN_TIMESTAMP),
        Some(NaiveDateTime { year: -262_143, month: 1, day: 1, hour: 0, minute: 0, second: 0 })
    );
    assert_eq!(NaiveDateTime::from_timestamp(MAX_TIMESTAMP + 1), None);
    assert_eq!(NaiveDateTime::from_timestamp(MIN_TIMESTAMP - 1), None);
    assert_eq!(NaiveDateTime::from_timestamp(i64::MAX), None);
    assert_eq!(NaiveDateTime::from_timestamp(i64::MIN), None);
}

#[test]
fn stored_moments_come_back_from_their_timestamps() {
    for (year, month, day, hour, minute, second) in [
        (1970, 1, 1, 0, 0, 0),
        (2019, 12, 31, 23, 59, 59),
        (2024, 2, 29, 1, 2, 3),
        (-100_000, 1, 1, 0, 0, 0),
        (100_000, 12, 31, 23, 59, 59),
    ] {
        let secs = timestamp(year, month, day, hour, minute, second);
        assert_eq!(
            NaiveDateTime::from_timestamp(secs),
            Some(NaiveDateTime {
                year,
                month: month as u32,
                day: day as u32,
                hour: hour as u32,
                minute: minute as u32,
                second: second as u32,
            })
        );
    }
}
