use ip_geolocate::clock::{reading_or_epoch, EPOCH};

#[test]
fn a_reading_stands_for_itself() {
    assert_eq!(reading_or_epoch(Some(0)), 0);
    assert_eq!(reading_or_epoch(Some(1)), 1);
    assert_eq!(reading_or_epoch(Some(1_700_000_000_000_000_000)), 1_700_000_000_000_000_000);
    assert_eq!(reading_or_epoch(Some(u128::MAX)), u128::MAX);
}

#[test]
fn a_clock_before_the_epoch_stands_for_the_epoch() {
    assert_eq!(EPOCH, 0);
    assert_eq!(reading_or_epoch(None), 0);
}
