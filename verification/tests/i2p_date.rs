use chrono::naive::datetime::NaiveDateTime;
use i2p::common::i2p_date::I2pDate;
use i2p::common::rfc3339::MAX_CALENDAR_SECONDS;

#[test]
fn new_keeps_the_count() {
    let date = I2pDate::new(1_234_567);
    assert_eq!(date.to_datetime(), (1_234, 567_000_000));
    assert_eq!(date, I2pDate::new(1_234_567));
    assert_ne!(date, I2pDate::new(1_234_568));
}

#[test]
fn min_value_is_one_millisecond() {
    assert_eq!(I2pDate::min_value(), I2pDate::new(1));
    assert_eq!(I2pDate::min_value().to_datetime(), (0, 1_000_000));
}

#[test]
fn max_value_is_the_largest_count() {
    assert_eq!(I2pDate::max_value(), I2pDate::new(u64::MAX));
    assert_eq!(
        I2pDate::max_value().to_datetime(),
        (18_446_744_073_709_551, 615_000_000)
    );
}

#[test]
fn min_value_comes_before_max_value() {
    assert!(I2pDate::min_value() < I2pDate::max_value());
    assert!(I2pDate::max_value() > I2pDate::min_value());
    assert!(!(I2pDate::max_value() < I2pDate::min_value()));
}

#[test]
fn default_is_min_value() {
    assert_eq!(I2pDate::default(), I2pDate::min_value());
}

#[test]
fn dates_are_ordered_by_their_counts() {
    let early = I2pDate::new(999);
    let late = I2pDate::new(1_000);
    assert!(early < late);
    assert!(early <= late);
    assert!(late > early);
    assert!(late >= early);
    assert!(early <= early);
    assert!(early >= early);
    assert!(!(early < early));
    assert_eq!(early.partial_cmp(&late), Some(std::cmp::Ordering::Less));
    assert_eq!(late.partial_cmp(&early), Some(std::cmp::Ordering::Greater));
    assert_eq!(early.partial_cmp(&early), Some(std::cmp::Ordering::Equal));
}

#[test]
fn no_date_lies_outside_min_and_max() {
    for count in [1u64, 2, 1_000, 1 << 40, u64::MAX - 1, u64::MAX] {
        let date = I2pDate::new(count);
        assert!(I2pDate::min_value() <= date);
        assert!(date <= I2pDate::max_value());
    }
}

#[test]
fn to_datetime_splits_seconds_and_nanoseconds() {
    assert_eq!(I2pDate::new(999).to_datetime(), (0, 999_000_000));
    assert_eq!(I2pDate::new(1_000).to_datetime(), (1, 0));
    assert_eq!(I2pDate::new(1_001).to_datetime(), (1, 1_000_000));
    assert_eq!(
        I2pDate::new(1_456_789_012_345).to_datetime(),
        (1_456_789_012, 345_000_000)
    );
}

#[test]
fn to_datetime_loses_nothing() {
    for count in [1u64, 59_999, 86_400_000, 1_456_789_012_345, u64::MAX] {
        let (seconds, nanoseconds) = I2pDate::new(count).to_datetime();
        assert_eq!(nanoseconds % 1_000_000, 0);
        assert_eq!(
            seconds as u64 * 1_000 + (nanoseconds / 1_000_000) as u64,
            count
        );
    }
}

#[test]
fn first_millisecond_as_rfc3339() {
    assert_eq!(
        I2pDate::new(1).to_rfc3339(),
        "1970-01-01T00:00:00.001+00:00"
    );
}

#[test]
fn min_value_as_rfc3339() {
    assert_eq!(
        I2pDate::min_value().to_rfc3339(),
        "1970-01-01T00:00:00.001+00:00"
    );
}

#[test]
fn whole_seconds_as_rfc3339() {
    assert_eq!(
        I2pDate::new(1_000_000_000_000).to_rfc3339(),
        "2001-09-09T01:46:40+00:00"
    );
}

#[test]
fn leap_day_as_rfc3339() {
    assert_eq!(
        I2pDate::new(1_456_789_012_345).to_rfc3339(),
        "2016-02-29T23:36:52.345+00:00"
    );
}

#[test]
fn rfc3339_is_the_same_each_time() {
    let date = I2pDate::new(1_456_789_012_345);
    assert_eq!(date.to_rfc3339(), date.to_rfc3339());
    assert_ne!(date.to_rfc3339(), I2pDate::new(1_456_789_012_346).to_rfc3339());
}

#[test]
fn last_date_with_a_calendar_form_as_rfc3339() {
    let last = I2pDate::new(8_210_298_412_799_999);
    assert_eq!(last.to_datetime(), (MAX_CALENDAR_SECONDS, 999_000_000));
    assert_eq!(last.to_rfc3339(), "+262143-12-31T23:59:59.999+00:00");
}

#[test]
fn calendar_ends_after_max_calendar_seconds() {
    assert_eq!(MAX_CALENDAR_SECONDS, 8_210_298_412_799);
    assert!(NaiveDateTime::from_timestamp_opt(MAX_CALENDAR_SECONDS, 999_999_999).is_some());
    assert!(NaiveDateTime::from_timestamp_opt(MAX_CALENDAR_SECONDS + 1, 0).is_none());
}

#[test]
fn rand_accepts_a_nonzero_draw() {
    assert_eq!(I2pDate::rand(7), Some(I2pDate::new(7)));
    assert_eq!(I2pDate::rand(u64::MAX), Some(I2pDate::max_value()));
    assert_eq!(I2pDate::rand(1), Some(I2pDate::min_value()));
}

#[test]
fn rand_rejects_a_draw_of_zero() {
    assert_eq!(I2pDate::rand(0), None);
}

#[test]
fn dates_are_copied_freely() {
    let date = I2pDate::new(42);
    let copy = date;
    let clone = date.clone();
    assert_eq!(date, copy);
    assert_eq!(date, clone);
}

#[test]
fn debug_shows_the_count() {
    assert_eq!(
        format!("{:?}", I2pDate::new(42)),
        "I2pDate { milliseconds: 42 }"
    );
}

#[test]
fn dates_up_to_the_year_262143_have_a_calendar_form() {
    assert!(I2pDate::min_value().has_calendar_form());
    assert!(I2pDate::new(1_456_789_012_345).has_calendar_form());
    assert!(I2pDate::new(8_210_298_412_799_999).has_calendar_form());
}

#[test]
fn later_dates_have_no_calendar_form() {
    assert!(!I2pDate::new(8_210_298_412_800_000).has_calendar_form());
    assert!(!I2pDate::max_value().has_calendar_form());
}
