use backon::Duration;

#[test]
fn test_duration_units_agree() {
    assert_eq!(Duration::from_secs(2), Duration::from_millis(2000));
    assert_eq!(Duration::from_millis(3), Duration::from_micros(3000));
    assert_eq!(Duration::from_micros(5), Duration::from_nanos(5000));
    assert_eq!(Duration::from_secs(0), Duration::zero());
}

#[test]
fn test_duration_accessors() {
    let d = Duration::from_millis(2500);
    assert_eq!(d.as_secs(), 2);
    assert_eq!(d.subsec_nanos(), 500_000_000);
}

#[test]
fn test_duration_saturating_add() {
    assert_eq!(
        Duration::from_millis(1500).saturating_add(Duration::from_millis(2700)),
        Duration::from_millis(4200)
    );
    assert_eq!(
        Duration::max_value().saturating_add(Duration::from_nanos(1)),
        Duration::max_value()
    );
}

#[test]
fn test_duration_saturating_mul() {
    assert_eq!(
        Duration::from_secs(2).saturating_mul(2500),
        Duration::from_secs(5)
    );
    assert_eq!(Duration::from_secs(2).saturating_mul(0), Duration::zero());
    assert_eq!(
        Duration::max_value().saturating_mul(2000),
        Duration::max_value()
    );
}

#[test]
fn test_duration_ordering() {
    assert!(Duration::from_millis(999) < Duration::from_secs(1));
    assert!(Duration::from_secs(1) < Duration::from_nanos(1_000_000_001));
    assert!(Duration::max_value() > Duration::from_secs(u64::MAX));
}
