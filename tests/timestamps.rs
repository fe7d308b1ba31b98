use celestia_node_api::Timestamp;

#[test]
fn epoch_is_an_instant() {
    let t = Timestamp::new(0, 0).unwrap();
    assert_eq!(t.secs(), 0);
    assert_eq!(t.nanos(), 0);
}

#[test]
fn ordinary_instant_keeps_its_parts() {
    let t = Timestamp::new(1_431_648_000, 123_456_789).unwrap();
    assert_eq!(t.secs(), 1_431_648_000);
    assert_eq!(t.nanos(), 123_456_789);
    let before_epoch = Timestamp::new(-86_400, 5).unwrap();
    assert_eq!(before_epoch.secs(), -86_400);
}

#[test]
fn leap_second_only_at_end_of_minute() {
    assert!(Timestamp::new(59, 1_500_000_000).is_some());
    assert!(Timestamp::new(58, 1_500_000_000).is_none());
}

#[test]
fn nanoseconds_of_two_seconds_are_refused() {
    assert!(Timestamp::new(59, 2_000_000_000).is_none());
    assert!(Timestamp::new(0, u32::MAX).is_none());
}

#[test]
fn seconds_out_of_range_are_refused() {
    assert!(Timestamp::new(i64::MAX, 0).is_none());
    assert!(Timestamp::new(i64::MIN, 0).is_none());
}
