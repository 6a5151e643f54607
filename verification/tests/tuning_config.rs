use amiquip::ConnectionTuning;
use std::time::Duration;

#[test]
fn tuning_defaults() {
    let t = ConnectionTuning::default();
    assert_eq!(t.mem_channel_bound, 16);
    assert_eq!(t.buffered_writes_high_water, 16 * 1024 * 1024);
    assert_eq!(t.buffered_writes_low_water, 0);
    assert!(t.poll_timeout.is_none());
}

#[test]
fn tuning_setters_replace_exactly_one_field() {
    let t = ConnectionTuning::default()
        .mem_channel_bound(4)
        .buffered_writes_high_water(1024)
        .buffered_writes_low_water(512)
        .poll_timeout(Some(Duration::from_millis(250)));
    assert_eq!(t.mem_channel_bound, 4);
    assert_eq!(t.buffered_writes_high_water, 1024);
    assert_eq!(t.buffered_writes_low_water, 512);
    assert_eq!(t.poll_timeout, Some(Duration::from_millis(250)));

    let t = t.mem_channel_bound(8);
    assert_eq!(t.mem_channel_bound, 8);
    assert_eq!(t.buffered_writes_high_water, 1024);
    assert_eq!(t.buffered_writes_low_water, 512);
    assert_eq!(t.poll_timeout, Some(Duration::from_millis(250)));

    let t = t.poll_timeout(None);
    assert_eq!(t.mem_channel_bound, 8);
    assert!(t.poll_timeout.is_none());
}
