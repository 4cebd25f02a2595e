use kuzu::{ConversionError, Date, DateTime, Duration, Error, LogicalType};

#[test]
fn date_from_unix_days() {
    assert_eq!(Date::from_unix_days(0).map(|d| d.unix_days()), Some(0));
    assert_eq!(Date::from_unix_days(19521).map(|d| d.unix_days()), Some(19521));
    assert_eq!(Date::from_unix_days(2_932_896).map(|d| d.unix_days()), Some(2_932_896));
    assert_eq!(Date::from_unix_days(2_932_897), None);
    assert_eq!(Date::from_unix_days(-4_371_587).map(|d| d.unix_days()), Some(-4_371_587));
    assert_eq!(Date::from_unix_days(-4_371_588), None);
    assert_eq!(Date::from_unix_days(i32::MAX), None);
    assert_eq!(Date::from_unix_days(i32::MIN), None);
}

#[test]
fn date_range_is_that_of_the_calendar() {
    let epoch = time::Date::from_calendar_date(1970, time::Month::January, 1).expect("a date");
    assert_eq!((time::Date::MAX - epoch).whole_days(), 2_932_896);
    assert_eq!((time::Date::MIN - epoch).whole_days(), -4_371_587);
    let first = time::OffsetDateTime::new_utc(time::Date::MIN, time::Time::MIDNIGHT);
    assert_eq!(first.unix_timestamp_nanos(), -377_705_116_800_000_000_000);
    let last = time::OffsetDateTime::new_utc(time::Date::MAX, time::Time::MAX);
    assert_eq!(last.unix_timestamp_nanos(), 253_402_300_799_999_999_999);
}

#[test]
fn date_from_calendar_date() {
    let date = Date::from_calendar_date(2023, 6, 13).expect("a date");
    assert_eq!(date.unix_days(), 19521);
    assert_eq!(Date::from_calendar_date(1970, 1, 1).map(|d| d.unix_days()), Some(0));
    assert_eq!(Date::from_calendar_date(1969, 12, 31).map(|d| d.unix_days()), Some(-1));
    assert_eq!(Date::from_calendar_date(2024, 2, 29).map(|d| d.unix_days()), Some(19782));
    assert_eq!(Date::from_calendar_date(2023, 2, 29), None);
    assert_eq!(Date::from_calendar_date(2023, 13, 1), None);
    assert_eq!(Date::from_calendar_date(2023, 0, 1), None);
    assert_eq!(Date::from_calendar_date(2023, 1, 0), None);
    assert_eq!(Date::from_calendar_date(10000, 1, 1), None);
    assert_eq!(Date::from_calendar_date(9999, 12, 31).map(|d| d.unix_days()), Some(2_932_896));
    assert_eq!(Date::from_calendar_date(2023, 6, 13), Date::from_unix_days(19521));
}

#[test]
fn date_texts() {
    assert_eq!(Date::from_unix_days(0).expect("a date").display(), "1970-01-01");
    assert_eq!(Date::from_unix_days(-1).expect("a date").display(), "1969-12-31");
    assert_eq!(Date::from_unix_days(2_932_896).expect("a date").display(), "9999-12-31");
    assert_eq!(Date::from_unix_days(-4_371_587).expect("a date").display(), "-9999-01-01");
}

#[test]
fn date_time_from_unix_nanos() {
    let last = 253_402_300_799_999_999_999i128;
    let first = -377_705_116_800_000_000_000i128;
    assert_eq!(DateTime::from_unix_nanos(0).map(|t| t.unix_nanos()), Some(0));
    assert_eq!(DateTime::from_unix_nanos(last).map(|t| t.unix_nanos()), Some(last));
    assert_eq!(DateTime::from_unix_nanos(last + 1), None);
    assert_eq!(DateTime::from_unix_nanos(first).map(|t| t.unix_nanos()), Some(first));
    assert_eq!(DateTime::from_unix_nanos(first - 1), None);
    assert_eq!(DateTime::from_unix_nanos(i128::MAX), None);
    assert_eq!(DateTime::from_unix_nanos(i128::MIN), None);
    assert_eq!(DateTime::from_unix_nanos(-1_500_000_000).map(|t| t.unix_nanos()), Some(-1_500_000_000));
}

#[test]
fn date_time_texts() {
    let text = |nanos: i128| DateTime::from_unix_nanos(nanos).expect("an instant").display();
    assert_eq!(text(0), "1970-01-01 0:00:00.0 +00:00:00");
    assert_eq!(text(253_402_300_799_999_999_999), "9999-12-31 23:59:59.999999999 +00:00:00");
    assert_eq!(
        text(-1_500_000_000),
        time::OffsetDateTime::from_unix_timestamp_nanos(-1_500_000_000)
            .expect("an instant")
            .to_string()
    );
}

#[test]
fn duration_parts() {
    let d = Duration::new(3, 500_000_000).expect("a duration");
    assert_eq!(d.whole_nanoseconds(), 3_500_000_000);
    assert_eq!(d.whole_seconds(), 3);
    assert_eq!(d.subsec_nanoseconds(), 500_000_000);
    let negative = Duration::new(-3, -500_000_000).expect("a duration");
    assert_eq!(negative.whole_nanoseconds(), -3_500_000_000);
    assert_eq!(negative.whole_seconds(), -3);
    assert_eq!(negative.subsec_nanoseconds(), -500_000_000);
    let mixed = Duration::new(1, -1).expect("a duration");
    assert_eq!(mixed.whole_nanoseconds(), 999_999_999);
    assert_eq!(mixed.whole_seconds(), 0);
    assert_eq!(mixed, Duration::from_nanoseconds(999_999_999).expect("a duration"));
    assert_eq!(
        mixed.whole_nanoseconds(),
        time::Duration::new(1, -1).whole_nanoseconds()
    );
}

#[test]
fn duration_limits() {
    let most = i64::MAX as i128 * 1_000_000_000 + 999_999_999;
    let least = i64::MIN as i128 * 1_000_000_000 - 999_999_999;
    assert_eq!(time::Duration::MAX.whole_nanoseconds(), most);
    assert_eq!(time::Duration::MIN.whole_nanoseconds(), least);
    assert!(Duration::from_nanoseconds(most).is_some());
    assert_eq!(Duration::from_nanoseconds(most + 1), None);
    assert!(Duration::from_nanoseconds(least).is_some());
    assert_eq!(Duration::from_nanoseconds(least - 1), None);
    assert_eq!(Duration::new(i64::MAX, 999_999_999).map(|d| d.whole_seconds()), Some(i64::MAX));
    assert_eq!(Duration::new(i64::MAX, 1_000_000_000), None);
    assert_eq!(Duration::new(i64::MIN, -1_000_000_000), None);
    assert_eq!(
        Duration::from_nanoseconds(most).expect("a duration").display(),
        time::Duration::MAX.to_string()
    );
}

#[test]
fn duration_intervals() {
    assert_eq!(Duration::from_interval(0, 0, 0).whole_nanoseconds(), 0);
    assert_eq!(Duration::from_interval(1, 0, 0).whole_nanoseconds(), 30 * 86_400_000_000_000);
    assert_eq!(Duration::from_interval(0, 1, 0).whole_nanoseconds(), 86_400_000_000_000);
    assert_eq!(Duration::from_interval(0, 0, 1).whole_nanoseconds(), 1000);
    assert_eq!(
        Duration::from_interval(i32::MAX, i32::MAX, i64::MAX).whole_nanoseconds(),
        ((i32::MAX as i128 * 31) * 86_400_000_000 + i64::MAX as i128) * 1000
    );
    assert_eq!(
        Duration::from_interval(i32::MIN, i32::MIN, i64::MIN).whole_nanoseconds(),
        ((i32::MIN as i128 * 31) * 86_400_000_000 + i64::MIN as i128) * 1000
    );
    let d = Duration::new(100 * 86400 + 7, 8_009).expect("a duration");
    assert_eq!(d.to_interval(), (3, 10, 7_000_008));
    let negative = Duration::new(-(100 * 86400 + 7), -8_009).expect("a duration");
    assert_eq!(negative.to_interval(), (-3, -10, -7_000_008));
}

#[test]
fn interval_months_beyond_32_bits_are_cut() {
    let days = (i32::MAX as i64 + 6) * 30;
    let d = Duration::new(days * 86400, 0).expect("a duration");
    assert_eq!(d.to_interval(), (i32::MIN + 5, 0, 0));
}

#[test]
fn conversion_error_messages() {
    assert_eq!(
        ConversionError::Date(2932897).message(),
        "Could not convert Kuzu date offset of UNIX_EPOCH + 2932897 days to time::Date"
    );
    assert_eq!(
        ConversionError::Timestamp(-5).message(),
        "Could not convert Kuzu timestamp offset of UNIX_EPOCH + -5 microseconds to time::OffsetDateTime"
    );
    assert_eq!(
        ConversionError::TimestampTz(7).message(),
        "Could not convert Kuzu timestamp_tz offset of UNIX_EPOCH + 7 microseconds to time::OffsetDateTime"
    );
    assert_eq!(
        ConversionError::TimestampNs(i64::MAX).message(),
        "Could not convert Kuzu timestamp_ns offset of UNIX_EPOCH + 9223372036854775807 nanoseconds to time::OffsetDateTime"
    );
    assert_eq!(
        ConversionError::TimestampMs(1).message(),
        "Could not convert Kuzu timestamp_ms offset of UNIX_EPOCH + 1 milliseconds to time::OffsetDateTime"
    );
    assert_eq!(
        ConversionError::TimestampSec(0).message(),
        "Could not convert Kuzu timestamp_sec offset of UNIX_EPOCH + 0 seconds to time::OffsetDateTime"
    );
    let bytes = vec![b'a', 0xff, b'b'];
    let theirs = String::from_utf8(bytes.clone()).expect_err("not UTF-8");
    assert_eq!(
        ConversionError::String(bytes).message(),
        format!("Could not read Kuzu RDF string as a utf-8 std::string::String: {}", theirs)
    );
    assert_eq!(
        ConversionError::String(vec![0xff]).message(),
        "Could not read Kuzu RDF string as a utf-8 std::string::String: invalid utf-8 sequence of 1 bytes from index 0"
    );
    assert_eq!(
        ConversionError::String(b"fine".to_vec()).message(),
        "Could not read Kuzu RDF string as a utf-8 std::string::String: "
    );
}

#[test]
fn error_messages() {
    assert_eq!(Error::CxxException("boom".to_string()).message(), "boom");
    assert_eq!(
        Error::FailedQuery("no such table".to_string()).message(),
        "Query execution failed: no such table"
    );
    assert_eq!(
        Error::FailedPreparedStatement("bad syntax".to_string()).message(),
        "Query execution failed: bad syntax"
    );
    assert_eq!(
        Error::ReadOnlyType(LogicalType::Node).message(),
        "Attempted to pass read only type Node over ffi!"
    );
    assert_eq!(
        Error::ReadOnlyType(LogicalType::Rel).message(),
        "Attempted to pass read only type Rel over ffi!"
    );
    assert_eq!(
        Error::ReadOnlyType(LogicalType::RecursiveRel).message(),
        "Attempted to pass read only type RecursiveRel over ffi!"
    );
    assert_eq!(
        format!("Attempted to pass read only type {:?} over ffi!", LogicalType::RecursiveRel),
        Error::ReadOnlyType(LogicalType::RecursiveRel).message()
    );
}
