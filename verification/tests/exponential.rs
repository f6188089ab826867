use backon::{Duration, ExponentialBuilder};

#[test]
fn test_exponential_default() {
    let mut exp = ExponentialBuilder::default().build();

    assert_eq!(Some(Duration::from_secs(1)), exp.next());
    assert_eq!(Some(Duration::from_secs(2)), exp.next());
    assert_eq!(Some(Duration::from_secs(4)), exp.next());
    assert_eq!(None, exp.next());
}

#[test]
fn test_exponential_factor() {
    let mut exp = ExponentialBuilder::default().with_factor(1500).build();

    assert_eq!(Some(Duration::from_millis(1000)), exp.next());
    assert_eq!(Some(Duration::from_millis(1500)), exp.next());
    assert_eq!(Some(Duration::from_millis(2250)), exp.next());
    assert_eq!(None, exp.next());
}

#[test]
fn test_exponential_jitter() {
    let mut exp = ExponentialBuilder::default().with_jitter().build();

    let v = exp.next().expect("value must valid");
    assert!(v >= Duration::from_secs(1), "current: {v:?}");
    assert!(v < Duration::from_secs(2), "current: {v:?}");

    let v = exp.next().expect("value must valid");
    assert!(v >= Duration::from_secs(2), "current: {v:?}");
    assert!(v < Duration::from_secs(4), "current: {v:?}");

    let v = exp.next().expect("value must valid");
    assert!(v >= Duration::from_secs(4), "current: {v:?}");
    assert!(v < Duration::from_secs(8), "current: {v:?}");

    assert_eq!(None, exp.next());
}

#[test]
fn test_exponential_min_delay() {
    let mut exp = ExponentialBuilder::default()
        .with_min_delay(Duration::from_millis(500))
        .build();

    assert_eq!(Some(Duration::from_millis(500)), exp.next());
    assert_eq!(Some(Duration::from_secs(1)), exp.next());
    assert_eq!(Some(Duration::from_secs(2)), exp.next());
    assert_eq!(None, exp.next());
}

#[test]
fn test_exponential_total_delay() {
    let mut exp = ExponentialBuilder::default()
        .with_min_delay(Duration::from_secs(1))
        .with_factor(1000)
        .with_total_delay(Some(Duration::from_secs(3)))
        .with_max_times(5)
        .build();

    assert_eq!(Some(Duration::from_secs(1)), exp.next());
    assert_eq!(Some(Duration::from_secs(1)), exp.next());
    assert_eq!(Some(Duration::from_secs(1)), exp.next());
    assert_eq!(None, exp.next());
}

#[test]
fn test_exponential_no_max_times_with_default() {
    let mut exp = ExponentialBuilder::default()
        .with_min_delay(Duration::from_secs(1))
        .with_factor(1000)
        .without_max_times()
        .build();

    // to fully test we would need to drive this to the counter's ceiling,
    // which seems unreasonable for a test as it would take too long...
    for _ in 0..10_000 {
        assert_eq!(Some(Duration::from_secs(1)), exp.next());
    }
}

#[test]
fn test_exponential_max_delay_with_default() {
    let mut exp = ExponentialBuilder::default()
        .with_max_delay(Duration::from_secs(2))
        .build();

    assert_eq!(Some(Duration::from_secs(1)), exp.next());
    assert_eq!(Some(Duration::from_secs(2)), exp.next());
    assert_eq!(Some(Duration::from_secs(2)), exp.next());
    assert_eq!(None, exp.next());
}

#[test]
fn test_exponential_no_max_delay_with_default() {
    let mut exp = ExponentialBuilder::default()
        .with_min_delay(Duration::from_secs(1))
        .with_factor(10_000_000_000_000)
        .without_max_delay()
        .with_max_times(4)
        .build();

    assert_eq!(Some(Duration::from_secs(1)), exp.next());
    assert_eq!(Some(Duration::from_secs(10_000_000_000)), exp.next());
    assert_eq!(Some(Duration::max_value()), exp.next());
    assert_eq!(Some(Duration::max_value()), exp.next());
    assert_eq!(None, exp.next());
}

#[test]
fn test_exponential_max_delay_without_default_1() {
    let mut exp = ExponentialBuilder {
        jitter: false,
        seed: Some(0x2fdb0020ffc7722b),
        factor: 10_000_000_000_000,
        min_delay: Duration::from_secs(1),
        max_delay: None,
        max_times: None,
        total_delay: None,
    }
    .build();

    assert_eq!(Some(Duration::from_secs(1)), exp.next());
    assert_eq!(Some(Duration::from_secs(10_000_000_000)), exp.next());
    assert_eq!(Some(Duration::max_value()), exp.next());
    assert_eq!(Some(Duration::max_value()), exp.next());
}

#[test]
fn test_exponential_max_delay_without_default_2() {
    let mut exp = ExponentialBuilder {
        jitter: true,
        seed: Some(0x2fdb0020ffc7722b),
        factor: 10_000_000_000_000,
        min_delay: Duration::from_secs(10_000_000_000),
        max_delay: None,
        max_times: Some(2),
        total_delay: None,
    }
    .build();

    let v = exp.next().expect("value must valid");
    assert!(v >= Duration::from_secs(10_000_000_000), "current: {v:?}");
    assert!(v < Duration::from_secs(20_000_000_000), "current: {v:?}");
    assert_eq!(Some(Duration::max_value()), exp.next());
    assert_eq!(None, exp.next());
}

#[test]
fn test_exponential_max_delay_without_default_3() {
    let mut exp = ExponentialBuilder {
        jitter: false,
        seed: Some(0x2fdb0020ffc7722b),
        factor: 10_000_000_000_000,
        min_delay: Duration::from_secs(10_000_000_000),
        max_delay: Some(Duration::from_secs(60_000_000_000)),
        max_times: Some(3),
        total_delay: None,
    }
    .build();

    assert_eq!(Some(Duration::from_secs(10_000_000_000)), exp.next());
    assert_eq!(Some(Duration::from_secs(60_000_000_000)), exp.next());
    assert_eq!(Some(Duration::from_secs(60_000_000_000)), exp.next());
    assert_eq!(None, exp.next());
}

#[test]
fn test_exponential_max_times() {
    let mut exp = ExponentialBuilder::default().with_max_times(1).build();

    assert_eq!(Some(Duration::from_secs(1)), exp.next());
    assert_eq!(None, exp.next());
}

#[test]
fn test_exponential_const_builder() {
    let test_builder = ExponentialBuilder::new()
        .with_jitter()
        .with_factor(1500)
        .with_min_delay(Duration::from_secs(2))
        .with_max_delay(Duration::from_secs(30))
        .with_max_times(5);

    assert!(test_builder.jitter);
    assert_eq!(test_builder.factor, 1500);
    assert_eq!(test_builder.min_delay, Duration::from_secs(2));
    assert_eq!(test_builder.max_delay, Some(Duration::from_secs(30)));
    assert_eq!(test_builder.max_times, Some(5));
}

#[test]
fn test_exponential_with_max_times_zero() {
    let mut exp = ExponentialBuilder::default().with_max_times(0).build();

    assert_eq!(None, exp.next());
    assert_eq!(None, exp.next());
}

#[test]
fn test_exponential_identical_runs_from_one_policy() {
    let builder = ExponentialBuilder::default()
        .with_factor(1500)
        .with_min_delay(Duration::from_millis(200))
        .with_max_times(7);

    let mut a = builder.build();
    let mut b = builder.build();
    let mut delays_a = Vec::new();
    let mut delays_b = Vec::new();
    while let Some(d) = a.next() {
        delays_a.push(d);
    }
    while let Some(d) = b.next() {
        delays_b.push(d);
    }
    assert_eq!(delays_a, delays_b);
    assert_eq!(delays_a.len(), 7);
}
