use rust_camel::domain::models::clock::Timestamp;

#[test]
fn timestamp_keeps_its_parts() {
    let point = Timestamp::new(1_700_000_000, 123_456_789).unwrap();
    assert_eq!(point.secs(), 1_700_000_000);
    assert_eq!(point.nanos(), 123_456_789);
    let early = Timestamp::new(-1, 0).unwrap();
    assert_eq!(early.secs(), -1);
    assert_eq!(early.nanos(), 0);
}

#[test]
fn timestamp_is_written_in_rfc3339() {
    assert_eq!(Timestamp::new(0, 0).unwrap().to_rfc3339(), "1970-01-01T00:00:00+00:00");
    assert_eq!(
        Timestamp::new(1_700_000_000, 0).unwrap().to_rfc3339(),
        "2023-11-14T22:13:20+00:00"
    );
    assert_eq!(
        Timestamp::new(1_700_000_000, 500_000_000).unwrap().to_rfc3339(),
        "2023-11-14T22:13:20.500+00:00"
    );
    assert_eq!(
        Timestamp::new(1_700_000_000, 123_456_000).unwrap().to_rfc3339(),
        "2023-11-14T22:13:20.123456+00:00"
    );
    assert_eq!(
        Timestamp::new(1_700_000_000, 123_456_789).unwrap().to_rfc3339(),
        "2023-11-14T22:13:20.123456789+00:00"
    );
    assert_eq!(Timestamp::new(-1, 0).unwrap().to_rfc3339(), "1969-12-31T23:59:59+00:00");
}

#[test]
fn timestamp_agrees_with_chrono() {
    for (secs, nanos) in [(0i64, 0u32), (951_782_400, 1), (253_402_300_799, 999_999_999)] {
        let expected = chrono::DateTime::from_timestamp(secs, nanos).unwrap().to_rfc3339();
        assert_eq!(Timestamp::new(secs, nanos).unwrap().to_rfc3339(), expected);
    }
}

#[test]
fn timestamp_outside_the_range_of_chrono_is_refused() {
    assert!(Timestamp::new(i64::MAX, 0).is_none());
    assert!(Timestamp::new(i64::MIN, 0).is_none());
    assert!(Timestamp::new(0, 2_000_000_000).is_none());
    assert!(Timestamp::new(0, 1_500_000_000).is_none());
    assert!(Timestamp::new(59, 1_500_000_000).is_some());
}

#[test]
fn timestamps_compare_by_their_parts() {
    assert_eq!(Timestamp::new(5, 6).unwrap(), Timestamp::new(5, 6).unwrap());
    assert_ne!(Timestamp::new(5, 6).unwrap(), Timestamp::new(5, 7).unwrap());
    assert_ne!(Timestamp::new(5, 6).unwrap(), Timestamp::new(6, 6).unwrap());
}
